use vstd::prelude::*;

verus! {

/// Where the compose state machine stands after a key symbol was fed to it.
#[derive(Clone, Copy, Debug, PartialEq, Eq)]
pub enum ComposeStatus {
    /// No sequence is pending: the key is typed as it is.
    Nothing,
    /// A sequence is pending and waits for more keys.
    Composing,
    /// A sequence is complete and its text is ready.
    Composed,
    /// The pending sequence was invalid.
    Cancelled,
}

/// What a key press comes to.
#[derive(Debug, PartialEq, Eq)]
pub struct PressResult {
    /// The text to emit, if any.
    pub text: Option<String>,
    /// Whether the compose state machine must be reset to idle now.
    pub reset: bool,
}

/// The key's text as it is emitted: a lone carriage return becomes a line feed.
pub open spec fn normalized(text: Seq<char>) -> Seq<char> {
    if text == seq!['\r'] {
        seq!['\n']
    } else {
        text
    }
}

/// Turns the carriage return that Enter resolves to into a line feed, and
/// leaves any other text as it is.
pub fn normalize_newline(text: String) -> (r: String)
    ensures
        r@ == normalized(text@),
{
    let cr: String = "\r".to_owned();
    proof {
        reveal_strlit("\r");
        assert(cr@ =~= seq!['\r']);
    }
    if text == cr {
        let lf: String = "\n".to_owned();
        proof {
            reveal_strlit("\n");
            assert(lf@ =~= seq!['\n']);
        }
        lf
    } else {
        text
    }
}

/// The text that a press emits, given the compose status after its symbol was
/// fed, the composed text that the compose state machine holds, and the text
/// that the key resolves to in the layout.
pub open spec fn press_text(
    status: ComposeStatus,
    composed: Option<Seq<char>>,
    key_text: Seq<char>,
) -> Option<Seq<char>> {
    match status {
        ComposeStatus::Composed => composed,
        ComposeStatus::Nothing => Some(normalized(key_text)),
        _ => None,
    }
}

/// Whether the compose state machine is reset after a press with this status.
pub open spec fn press_resets(status: ComposeStatus) -> bool {
    status == ComposeStatus::Composed || status == ComposeStatus::Cancelled
}

/// The view of an optional string.
pub open spec fn text_view(t: Option<String>) -> Option<Seq<char>> {
    match t {
        Some(s) => Some(s@),
        None => None,
    }
}

/// Resolves a key press once its symbol was fed to the compose state machine:
/// a complete sequence emits its composed text and resets the machine; with no
/// sequence pending the key's own text is emitted; a cancelled sequence resets
/// the machine and emits nothing; a pending one emits nothing and persists.
pub fn resolve_press(status: ComposeStatus, composed: Option<String>, key_text: String) -> (r:
    PressResult)
    ensures
        text_view(r.text) == press_text(status, text_view(composed), key_text@),
        r.reset == press_resets(status),
{
    match status {
        ComposeStatus::Composed => PressResult { text: composed, reset: true },
        ComposeStatus::Nothing => PressResult {
            text: Some(normalize_newline(key_text)),
            reset: false,
        },
        ComposeStatus::Cancelled => PressResult { text: None, reset: true },
        ComposeStatus::Composing => PressResult { text: None, reset: false },
    }
}

/// With no compose sequence pending, a press emits the key's own text, with a
/// carriage return turned into a line feed, and leaves the machine as it is.
pub proof fn lemma_idle_press_types_key(composed: Option<Seq<char>>, key_text: Seq<char>)
    ensures
        press_text(ComposeStatus::Nothing, composed, key_text) == Some(normalized(key_text)),
        !press_resets(ComposeStatus::Nothing),
{
}

/// A press that leaves a sequence still pending emits nothing, and the
/// machine keeps composing.
pub proof fn lemma_composing_press_is_silent(composed: Option<Seq<char>>, key_text: Seq<char>)
    ensures
        press_text(ComposeStatus::Composing, composed, key_text) is None,
        !press_resets(ComposeStatus::Composing),
{
}

/// A press that completes a sequence emits exactly the composed text, as one
/// fragment, and the machine is reset to idle right after.
pub proof fn lemma_composed_press_emits_once(composed: Seq<char>, key_text: Seq<char>)
    ensures
        press_text(ComposeStatus::Composed, Some(composed), key_text) == Some(composed),
        press_resets(ComposeStatus::Composed),
{
}

/// A press that cancels a pending sequence emits nothing, and the machine is
/// reset to idle.
pub proof fn lemma_cancelling_press_is_silent(composed: Option<Seq<char>>, key_text: Seq<char>)
    ensures
        press_text(ComposeStatus::Cancelled, composed, key_text) is None,
        press_resets(ComposeStatus::Cancelled),
{
}

/// The text of a key is never emitted as a lone carriage return.
pub proof fn lemma_no_lone_carriage_return(key_text: Seq<char>)
    ensures
        normalized(key_text) != seq!['\r'],
        key_text == seq!['\r'] ==> normalized(key_text) == seq!['\n'],
{
    assert(seq!['\n'] != seq!['\r']) by {
        assert(seq!['\n'][0] != seq!['\r'][0]);
    }
}

} // verus!
