use vstd::prelude::*;

verus! {

/// The single source of truth for rendering decisions: three independent
/// booleans describing the current interaction state of the call panel.
/// Equality is structural; no field depends on another.
#[derive(Clone, Copy, Debug, PartialEq, Eq, Structural)]
pub struct State {
    /// True when the chat pane is collapsed (the narrow-layout default).
    pub chat_panel_hidden: bool,
    /// True when the microphone is considered active.
    pub mic_enabled: bool,
    /// True when the camera is considered active.
    pub camera_enabled: bool,
}

impl State {
    /// The fixed defaults at widget mount: chat pane collapsed, microphone
    /// and camera both active.
    pub open spec fn initial() -> State {
        State { chat_panel_hidden: true, mic_enabled: true, camera_enabled: true }
    }

    /// Constructs the mount-time state.
    pub fn new() -> (s: State)
        ensures
            s == State::initial(),
    {
        State { chat_panel_hidden: true, mic_enabled: true, camera_enabled: true }
    }

    /// Layout class of the video pane, selected by the chat-panel flag.
    pub fn classes_main_left(&self) -> (r: &'static str)
        ensures
            self.chat_panel_hidden ==> r@ == "main__left"@,
            !self.chat_panel_hidden ==> r@ == "main__left disable"@,
    {
        if self.chat_panel_hidden {
            "main__left"
        } else {
            "main__left disable"
        }
    }

    /// Layout class of the chat pane, selected by the chat-panel flag.
    pub fn classes_main_right(&self) -> (r: &'static str)
        ensures
            self.chat_panel_hidden ==> r@ == "main__right"@,
            !self.chat_panel_hidden ==> r@ == "main__right disable"@,
    {
        if self.chat_panel_hidden {
            "main__right"
        } else {
            "main__right disable"
        }
    }

    /// Class of the header's back control, selected by the chat-panel flag.
    pub fn classes_header_back(&self) -> (r: &'static str)
        ensures
            self.chat_panel_hidden ==> r@ == "header__back"@,
            !self.chat_panel_hidden ==> r@ == "header__back disable"@,
    {
        if self.chat_panel_hidden {
            "header__back"
        } else {
            "header__back disable"
        }
    }

    /// Icon class of the microphone control: active vs. muted variant.
    pub fn classes_mic(&self) -> (r: &'static str)
        ensures
            self.mic_enabled ==> r@ == "fa fa-microphone"@,
            !self.mic_enabled ==> r@ == "fa fa-microphone-slash background__red"@,
    {
        if self.mic_enabled {
            "fa fa-microphone"
        } else {
            "fa fa-microphone-slash background__red"
        }
    }

    /// Button class of the microphone control: active vs. muted variant.
    pub fn classes_button_mic(&self) -> (r: &'static str)
        ensures
            self.mic_enabled ==> r@ == "options__button"@,
            !self.mic_enabled ==> r@ == "options__button background__red"@,
    {
        if self.mic_enabled {
            "options__button"
        } else {
            "options__button background__red"
        }
    }

    /// Icon class of the camera control: active vs. off variant.
    pub fn classes_camera(&self) -> (r: &'static str)
        ensures
            self.camera_enabled ==> r@ == "fa fa-video-camera"@,
            !self.camera_enabled ==> r@ == "fa fa-video-slash background__red"@,
    {
        if self.camera_enabled {
            "fa fa-video-camera"
        } else {
            "fa fa-video-slash background__red"
        }
    }

    /// Button class of the camera control: active vs. off variant.
    pub fn classes_button_camera(&self) -> (r: &'static str)
        ensures
            self.camera_enabled ==> r@ == "options__button"@,
            !self.camera_enabled ==> r@ == "options__button background__red"@,
    {
        if self.camera_enabled {
            "options__button"
        } else {
            "options__button background__red"
        }
    }
}

} // verus!
