//! The macOS backend: a `display notification` AppleScript handed to the
//! `osascript` interpreter by the caller. Building and escaping the script
//! is verified here.

use crate::notifier::{Notification, Notifier};
use crate::platform::Platform;
use vstd::prelude::*;

verus! {

/// The macOS AppleScript backend.
#[derive(Debug, Clone, Copy)]
pub struct MacOsNotifier;

/// One character escaped for an AppleScript double-quoted string literal:
/// a backslash becomes two, a double quote gains a backslash, everything
/// else stands as it is.
pub open spec fn spec_escape_char(c: char) -> Seq<char> {
    if c == '\\' {
        seq!['\\', '\\']
    } else if c == '"' {
        seq!['\\', '"']
    } else {
        seq![c]
    }
}

/// A string escaped for an AppleScript double-quoted string literal,
/// character by character. Escaping each character in one pass is what the
/// two-step rule — backslashes first, quotes second — amounts to: the
/// backslashes that quote-escaping inserts are never escaped again.
pub open spec fn spec_escape(s: Seq<char>) -> Seq<char>
    decreases s.len(),
{
    if s.len() == 0 {
        Seq::empty()
    } else {
        spec_escape(s.drop_last()) + spec_escape_char(s.last())
    }
}

/// One character after the first documented pass alone: backslashes are
/// doubled, everything else stands.
pub open spec fn spec_double_backslash(c: char) -> Seq<char> {
    if c == '\\' {
        seq!['\\', '\\']
    } else {
        seq![c]
    }
}

/// A string after the first documented pass alone: every backslash doubled.
pub open spec fn spec_backslash_pass(s: Seq<char>) -> Seq<char>
    decreases s.len(),
{
    if s.len() == 0 {
        Seq::empty()
    } else {
        spec_backslash_pass(s.drop_last()) + spec_double_backslash(s.last())
    }
}

/// One character after the second documented pass alone: double quotes gain
/// a backslash, everything else stands.
pub open spec fn spec_guard_quote(c: char) -> Seq<char> {
    if c == '"' {
        seq!['\\', '"']
    } else {
        seq![c]
    }
}

/// A string after the second documented pass alone: every double quote
/// guarded by a backslash.
pub open spec fn spec_quote_pass(s: Seq<char>) -> Seq<char>
    decreases s.len(),
{
    if s.len() == 0 {
        Seq::empty()
    } else {
        spec_quote_pass(s.drop_last()) + spec_guard_quote(s.last())
    }
}

/// The quote pass distributes over concatenation.
proof fn lemma_quote_pass_concat(a: Seq<char>, b: Seq<char>)
    ensures
        spec_quote_pass(a + b) == spec_quote_pass(a) + spec_quote_pass(b),
    decreases b.len(),
{
    if b.len() == 0 {
        assert(a + b =~= a);
        assert(spec_quote_pass(a) + spec_quote_pass(b) =~= spec_quote_pass(a));
    } else {
        lemma_quote_pass_concat(a, b.drop_last());
        assert((a + b).drop_last() =~= a + b.drop_last());
        assert((a + b).last() == b.last());
        assert(spec_quote_pass(a) + spec_quote_pass(b.drop_last()) + spec_guard_quote(b.last())
            =~= spec_quote_pass(a) + spec_quote_pass(b));
    }
}

/// AppleScript escaping is the two documented passes in their documented
/// order: first every backslash is doubled, then every double quote gains a
/// backslash. Because the first pass has already run, the backslashes that
/// the second pass inserts are never doubled again; reversing the passes
/// would escape them once more.
pub proof fn lemma_escape_is_backslashes_then_quotes(s: Seq<char>)
    ensures
        spec_escape(s) == spec_quote_pass(spec_backslash_pass(s)),
    decreases s.len(),
{
    if s.len() == 0 {
    } else {
        lemma_escape_is_backslashes_then_quotes(s.drop_last());
        lemma_quote_pass_concat(
            spec_backslash_pass(s.drop_last()),
            spec_double_backslash(s.last()),
        );
        let c = s.last();
        let d = spec_double_backslash(c);
        assert(spec_quote_pass(Seq::<char>::empty()) == Seq::<char>::empty());
        if c == '\\' {
            assert(d.drop_last() =~= seq!['\\']);
            assert(seq!['\\'].drop_last() =~= Seq::<char>::empty());
            assert(spec_quote_pass(seq!['\\']) == spec_quote_pass(seq!['\\'].drop_last())
                + spec_guard_quote('\\'));
            assert(spec_quote_pass(seq!['\\']) =~= seq!['\\']);
            assert(spec_quote_pass(d) == spec_quote_pass(d.drop_last()) + spec_guard_quote(
                d.last(),
            ));
            assert(spec_quote_pass(d) =~= spec_escape_char(c));
        } else {
            assert(d.drop_last() =~= Seq::<char>::empty());
            assert(spec_quote_pass(d) == spec_quote_pass(d.drop_last()) + spec_guard_quote(
                d.last(),
            ));
            assert(spec_quote_pass(d) =~= spec_escape_char(c));
        }
    }
}

/// Escapes a string for interpolation into an AppleScript double-quoted
/// string literal.
pub fn escape_applescript(s: &str) -> (r: String)
    ensures
        r@ == spec_escape(s@),
{
    let n = s.unicode_len();
    let mut r = String::new();
    let mut i: usize = 0;
    while i < n
        invariant
            n == s@.len(),
            i <= n,
            r@ == spec_escape(s@.take(i as int)),
        decreases n - i,
    {
        proof {
            assert(s@.take(i + 1).drop_last() =~= s@.take(i as int));
            assert(s@.take(i + 1).last() == s@[i as int]);
        }
        let c = s.get_char(i);
        if c == '\\' {
            r.append("\\\\");
            proof {
                reveal_strlit("\\\\");
                assert("\\\\"@ =~= seq!['\\', '\\']);
            }
        } else if c == '"' {
            r.append("\\\"");
            proof {
                reveal_strlit("\\\"");
                assert("\\\""@ =~= seq!['\\', '"']);
            }
        } else {
            let piece = s.substring_char(i, i + 1);
            proof {
                assert(piece@ =~= seq![s@[i as int]]);
            }
            r.append(piece);
        }
        i += 1;
    }
    proof {
        assert(s@.take(n as int) =~= s@);
    }
    r
}

/// The AppleScript that displays a notification: message and title always,
/// a subtitle clause only when the subtitle is non-empty, and a sound-name
/// clause always. Every interpolated string — message, title, subtitle and
/// sound name — is escaped for the AppleScript string-literal grammar.
pub open spec fn spec_script(n: Notification) -> Seq<char> {
    "display notification \""@ + spec_escape(n.message@) + "\" with title \""@ + spec_escape(
        n.title@,
    ) + "\""@ + (if n.subtitle@.len() > 0 {
        " subtitle \""@ + spec_escape(n.subtitle@) + "\""@
    } else {
        Seq::<char>::empty()
    }) + " sound name \""@ + spec_escape(n.sound@) + "\""@
}

impl Notifier for MacOsNotifier {
    /// Usable only on macOS itself.
    open spec fn spec_available(&self, host: Platform) -> bool {
        host == Platform::MacOs
    }

    open spec fn spec_name(&self) -> Seq<char> {
        "macOS (osascript)"@
    }

    fn is_available(&self, host: Platform) -> (r: bool) {
        matches!(host, Platform::MacOs)
    }

    fn backend_name(&self) -> (r: &'static str) {
        "macOS (osascript)"
    }
}

impl MacOsNotifier {
    /// Builds the AppleScript for a notification, ready to hand to the
    /// interpreter as a single script argument.
    pub fn build_script(&self, notification: &Notification) -> (r: String)
        ensures
            r@ == spec_script(*notification),
    {
        let mut script = String::from_str("display notification \"");
        let message = escape_applescript(notification.message.as_str());
        script.append(message.as_str());
        script.append("\" with title \"");
        let title = escape_applescript(notification.title.as_str());
        script.append(title.as_str());
        script.append("\"");
        if !notification.subtitle.as_str().is_empty() {
            script.append(" subtitle \"");
            let subtitle = escape_applescript(notification.subtitle.as_str());
            script.append(subtitle.as_str());
            script.append("\"");
        }
        script.append(" sound name \"");
        let sound = escape_applescript(notification.sound.as_str());
        script.append(sound.as_str());
        script.append("\"");
        proof {
            assert(script@ =~= spec_script(*notification));
        }
        script
    }
}

} // verus!
