use vstd::prelude::*;
use crate::calibration::{Action, Calibrator, Event, Phase};
use crate::settings::Settings;

verus! {

/// The display language of the overlay.
#[derive(Clone, Copy, Debug, PartialEq, Eq, Structural)]
pub enum Lang {
    EN,
    RU,
    CH,
}

impl Lang {
    /// The display label of each supported locale; the mapping is
    /// exhaustive.
    pub fn label(self) -> (r: &'static str)
        ensures
            self == Lang::EN ==> r@ == "English"@,
            self == Lang::RU ==> r@ == "Russian"@,
            self == Lang::CH ==> r@ == "Chinese"@,
    {
        match self {
            Lang::EN => "English",
            Lang::RU => "Russian",
            Lang::CH => "Chinese",
        }
    }
}

/// One overlay session: the selected language, the two window handles
/// the overlay references (opaque OS identifiers, zero meaning "not
/// known"), and the settings tree it owns for its whole lifetime.
#[derive(Clone, Copy, Debug, PartialEq, Eq, Structural)]
pub struct Session {
    pub lang: Lang,
    /// The overlay's own window; focus returns here after calibration.
    pub overlay_window: u64,
    /// The target application's window; calibration may begin only when
    /// this handle is known.
    pub target_window: u64,
    pub settings: Settings,
}

impl Session {
    /// A calibration attempt may begin only against a known target.
    pub open spec fn target_known(self) -> bool {
        self.target_window != 0
    }

    pub fn new(lang: Lang, overlay_window: u64, target_window: u64) -> (s: Session)
        ensures
            s.lang == lang,
            s.overlay_window == overlay_window,
            s.target_window == target_window,
            s.settings == Settings::spec_default(),
    {
        Session { lang, overlay_window, target_window, settings: Settings::default() }
    }

    /// Begins a calibration attempt against this session's target window.
    /// An attempt may begin only when that window is known.
    pub fn begin_calibration(&self, cal: &mut Calibrator) -> (a: Action)
        requires
            old(cal).phase == Phase::Idle,
            self.target_known(),
        ensures
            *final(cal) == old(cal).step(Event::Start),
            a == Action::FocusTarget(self.target_window),
    {
        cal.start(self.target_window)
    }
}

} // verus!
