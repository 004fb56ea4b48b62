use vstd::prelude::*;

verus! {

/// The guidance text shown above the invite link in the modal prompt.
pub open spec fn invite_message() -> Seq<char> {
    "Copy this link and send it to people you want to meet with:"@
}

/// The one failure the panel defines: the current page address could not be
/// resolved. It is local to the invite action and leaves the view state
/// untouched.
#[derive(Clone, Copy, Debug, PartialEq, Eq, Structural)]
pub enum InviteError {
    AddressUnavailable,
}

/// What the host must hand the modal prompt collaborator: the fixed
/// guidance message and the invite link as prefill. The prompt's return
/// value is discarded by the panel.
#[derive(Debug)]
pub struct PromptRequest {
    /// The guidance text, always [`invite_message`].
    pub message: &'static str,
    /// The resolved page address, shown pre-filled for copying.
    pub prefill: String,
}

/// Prepares the invite side effect from the host's attempt to resolve the
/// current page address. A resolved address yields the prompt request,
/// guidance text plus the address as prefill; an unresolved one yields
/// `AddressUnavailable` and no prompt is to be shown.
pub fn invite_prompt(href: Option<String>) -> (r: Result<PromptRequest, InviteError>)
    ensures
        href matches Some(h) ==> (r matches Ok(p) && p.message@ == invite_message() && p.prefill@
            == h@),
        href is None ==> (r matches Err(e) && e is AddressUnavailable),
{
    match href {
        Some(h) => Ok(
            PromptRequest {
                message: "Copy this link and send it to people you want to meet with:",
                prefill: h,
            },
        ),
        None => Err(InviteError::AddressUnavailable),
    }
}

} // verus!
