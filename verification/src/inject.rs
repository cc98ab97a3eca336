use vstd::prelude::*;

verus! {

#[verifier::external_type_specification]
#[verifier::external_body]
pub struct ExEnigo(enigo::Enigo);

/// What a failed injection reports: the OS layer's own message where it gave
/// one, a fixed description where it came back blank.
pub open spec fn failure_description(msg: Seq<char>) -> Seq<char> {
    if msg.len() > 0 {
        msg
    } else {
        "input synthesis failed"@
    }
}

/// Keeps an error report descriptive: an empty message is replaced by a
/// fixed one, anything else passes through unchanged.
pub fn describe_failure(msg: String) -> (r: String)
    ensures
        r@ == failure_description(msg@),
        r@.len() > 0,
{
    if msg.as_str().is_empty() {
        proof {
            reveal_strlit("input synthesis failed");
        }
        "input synthesis failed".to_owned()
    } else {
        msg
    }
}

/// Relies on enigo::Enigo::new, with enigo::Settings::default: acquires an
/// OS input-simulation context, or reports in its error why the OS refused
/// one. Nothing more is promised: the outcome depends on the machine, its
/// display session and its accessibility permissions.
#[verifier::external_body]
fn acquire_context() -> (r: Result<enigo::Enigo, String>) {
    enigo::Enigo::new(&enigo::Settings::default()).map_err(|e| e.to_string())
}

/// Relies on enigo::Keyboard::text: enters the string as synthetic key
/// events at the current OS input focus, or reports in its error why it
/// could not. Nothing more is promised: the outcome depends on the machine,
/// and characters already entered before a failure stay entered.
#[verifier::external_body]
fn synthesize_text(ctx: &mut enigo::Enigo, text: &str) -> (r: Result<(), String>) {
    enigo::Keyboard::text(ctx, text).map_err(|e| e.to_string())
}

/// Types `text` at the current OS input focus through synthetic key events.
///
/// Each call synthesises the whole string afresh: two calls with the same
/// text produce two independent keystroke sequences, with no deduplication.
/// Any text the embedding layer hands over is accepted, the empty string
/// included; this function never panics. When either acquiring the input
/// context or synthesising the text fails, the error carries a non-empty
/// description of what went wrong.
pub fn inject_text(text: String) -> (r: Result<(), String>)
    ensures
        r matches Err(msg) ==> msg@.len() > 0,
{
    let mut ctx: enigo::Enigo = match acquire_context() {
        Ok(c) => c,
        Err(msg) => {
            return Err(describe_failure(msg));
        },
    };
    match synthesize_text(&mut ctx, text.as_str()) {
        Ok(()) => Ok(()),
        Err(msg) => Err(describe_failure(msg)),
    }
}

} // verus!
