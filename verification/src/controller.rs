use vstd::prelude::*;

use crate::state::State;

verus! {

/// The closed set of user-intent events the controller consumes.
#[derive(Clone, Copy, Debug, PartialEq, Eq, Structural)]
pub enum Msg {
    /// Show the chat pane (narrow layout).
    OpenChatPanel,
    /// Collapse the chat pane (narrow layout).
    CloseChatPanel,
    /// Flip the microphone flag.
    ToggleMicrophone,
    /// Flip the camera flag.
    ToggleCamera,
    /// Ask the host to present the invite link; the state is untouched.
    RequestInvite,
}

/// The transition table: the state after dispatching one event. Each event
/// writes at most the one field named for it; `RequestInvite` changes
/// nothing.
pub open spec fn step(s: State, m: Msg) -> State {
    match m {
        Msg::OpenChatPanel => State {
            chat_panel_hidden: false,
            mic_enabled: s.mic_enabled,
            camera_enabled: s.camera_enabled,
        },
        Msg::CloseChatPanel => State {
            chat_panel_hidden: true,
            mic_enabled: s.mic_enabled,
            camera_enabled: s.camera_enabled,
        },
        Msg::ToggleMicrophone => State {
            chat_panel_hidden: s.chat_panel_hidden,
            mic_enabled: !s.mic_enabled,
            camera_enabled: s.camera_enabled,
        },
        Msg::ToggleCamera => State {
            chat_panel_hidden: s.chat_panel_hidden,
            mic_enabled: s.mic_enabled,
            camera_enabled: !s.camera_enabled,
        },
        Msg::RequestInvite => s,
    }
}

/// True of the one event that asks the host to run the invite side effect
/// after its (identity) transition.
pub open spec fn is_invite(m: Msg) -> bool {
    m is RequestInvite
}

/// The controller: exclusive owner of the current view state. The renderer
/// reads a snapshot through [`App::state`]; only [`App::update`] writes.
pub struct App {
    state: State,
}

impl View for App {
    type V = State;

    closed spec fn view(&self) -> State {
        self.state
    }
}

impl App {
    /// Builds the controller at widget mount with the fixed default state.
    pub fn create() -> (app: App)
        ensures
            app@ == State::initial(),
    {
        App { state: State::new() }
    }

    /// Read-only snapshot of the current view state for one render pass.
    pub fn state(&self) -> (s: State)
        ensures
            s == self@,
    {
        self.state
    }

    /// Dispatches one intent event: the state advances by exactly one
    /// [`step`], and a re-render is scheduled unconditionally (the returned
    /// flag is always true, also for `RequestInvite`).
    pub fn update(&mut self, msg: Msg) -> (should_render: bool)
        ensures
            final(self)@ == step(old(self)@, msg),
            should_render,
    {
        match msg {
            Msg::OpenChatPanel => {
                self.state.chat_panel_hidden = false;
            }
            Msg::CloseChatPanel => {
                self.state.chat_panel_hidden = true;
            }
            Msg::ToggleMicrophone => {
                self.state.mic_enabled = !self.state.mic_enabled;
            }
            Msg::ToggleCamera => {
                self.state.camera_enabled = !self.state.camera_enabled;
            }
            Msg::RequestInvite => {}
        }
        true
    }

    /// Tells the host whether this event requests the invite side effect,
    /// so the effect can run after the transition, outside the pure step.
    pub fn requests_invite(msg: &Msg) -> (r: bool)
        ensures
            r == is_invite(*msg),
    {
        match msg {
            Msg::RequestInvite => true,
            _ => false,
        }
    }
}

/// Opening the chat pane is idempotent, and so is closing it: dispatching
/// the same panel event twice yields the state one dispatch yields.
pub proof fn lemma_panel_idempotent(s: State)
    ensures
        step(step(s, Msg::OpenChatPanel), Msg::OpenChatPanel) == step(s, Msg::OpenChatPanel),
        step(step(s, Msg::CloseChatPanel), Msg::CloseChatPanel) == step(s, Msg::CloseChatPanel),
{
}

/// Each toggle is an involution: dispatching it twice restores the state,
/// every field included.
pub proof fn lemma_toggle_involution(s: State)
    ensures
        step(step(s, Msg::ToggleMicrophone), Msg::ToggleMicrophone) == s,
        step(step(s, Msg::ToggleCamera), Msg::ToggleCamera) == s,
{
}

/// Field independence: every event leaves unchanged each field its
/// transition rule does not name.
pub proof fn lemma_field_independence(s: State, m: Msg)
    ensures
        m !is OpenChatPanel && m !is CloseChatPanel ==> step(s, m).chat_panel_hidden
            == s.chat_panel_hidden,
        m !is ToggleMicrophone ==> step(s, m).mic_enabled == s.mic_enabled,
        m !is ToggleCamera ==> step(s, m).camera_enabled == s.camera_enabled,
{
}

} // verus!
