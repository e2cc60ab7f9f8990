//! The Windows backend: a PowerShell script that shows a balloon
//! notification, handed to the interpreter by the caller (directly on
//! Windows, or across the WSL boundary). Building and escaping the script is
//! verified here.

use crate::notifier::{Notification, Notifier};
use crate::platform::Platform;
use crate::text;
use vstd::prelude::*;

verus! {

/// The Windows PowerShell backend.
#[derive(Debug, Clone, Copy)]
pub struct WindowsNotifier;

/// One character escaped for a PowerShell single-quoted string literal: a
/// single quote is doubled, everything else stands as it is.
pub open spec fn spec_escape_char(c: char) -> Seq<char> {
    if c == '\'' {
        seq!['\'', '\'']
    } else {
        seq![c]
    }
}

/// A string escaped for a PowerShell single-quoted string literal,
/// character by character: every single quote is doubled.
pub open spec fn spec_escape(s: Seq<char>) -> Seq<char>
    decreases s.len(),
{
    if s.len() == 0 {
        Seq::empty()
    } else {
        spec_escape(s.drop_last()) + spec_escape_char(s.last())
    }
}

/// Escapes a string for interpolation into a PowerShell single-quoted
/// string literal.
pub fn escape_powershell(s: &str) -> (r: String)
    ensures
        r@ == spec_escape(s@),
{
    let n = s.unicode_len();
    let mut r = String::new();
    let mut i: usize = 0;
    while i < n
        invariant
            n == s@.len(),
            i <= n,
            r@ == spec_escape(s@.take(i as int)),
        decreases n - i,
    {
        proof {
            assert(s@.take(i + 1).drop_last() =~= s@.take(i as int));
            assert(s@.take(i + 1).last() == s@[i as int]);
        }
        let c = s.get_char(i);
        if c == '\'' {
            r.append("''");
            proof {
                reveal_strlit("''");
                assert("''"@ =~= seq!['\'', '\'']);
            }
        } else {
            let piece = s.substring_char(i, i + 1);
            proof {
                assert(piece@ =~= seq![s@[i as int]]);
            }
            r.append(piece);
        }
        i += 1;
    }
    proof {
        assert(s@.take(n as int) =~= s@);
    }
    r
}

/// The PowerShell script that shows a balloon notification: it loads the
/// Windows Forms assembly, sets up a notify icon with the escaped title and
/// message, shows the balloon for the notification's timeout in
/// milliseconds, sleeps briefly, and disposes the icon.
pub open spec fn spec_script(n: Notification) -> Seq<char> {
    "Add-Type -AssemblyName System.Windows.Forms\n"@
        + "$balloon = New-Object System.Windows.Forms.NotifyIcon\n"@
        + "$balloon.Icon = [System.Drawing.SystemIcons]::Information\n"@
        + "$balloon.BalloonTipTitle = '"@ + spec_escape(n.title@) + "'\n"@
        + "$balloon.BalloonTipText = '"@ + spec_escape(n.message@) + "'\n"@
        + "$balloon.Visible = $true\n"@ + "$balloon.ShowBalloonTip("@ + text::decimal_of(
        n.timeout as nat,
    ) + ")\n"@ + "Start-Sleep -Milliseconds 100\n"@ + "$balloon.Dispose()\n"@
}

impl Notifier for WindowsNotifier {
    /// Usable on native Windows and wherever a Linux kernel can reach the
    /// Windows host's interpreter, which covers WSL.
    open spec fn spec_available(&self, host: Platform) -> bool {
        host == Platform::Windows || host == Platform::Wsl || host == Platform::Linux
    }

    open spec fn spec_name(&self) -> Seq<char> {
        "Windows (PowerShell)"@
    }

    fn is_available(&self, host: Platform) -> (r: bool) {
        matches!(host, Platform::Windows | Platform::Wsl | Platform::Linux)
    }

    fn backend_name(&self) -> (r: &'static str) {
        "Windows (PowerShell)"
    }
}

impl WindowsNotifier {
    /// Builds the PowerShell script for a notification, ready to hand to
    /// the interpreter as a single command argument.
    pub fn build_script(&self, notification: &Notification) -> (r: String)
        ensures
            r@ == spec_script(*notification),
    {
        let mut script = String::from_str("Add-Type -AssemblyName System.Windows.Forms\n");
        script.append("$balloon = New-Object System.Windows.Forms.NotifyIcon\n");
        script.append("$balloon.Icon = [System.Drawing.SystemIcons]::Information\n");
        script.append("$balloon.BalloonTipTitle = '");
        let title = escape_powershell(notification.title.as_str());
        script.append(title.as_str());
        script.append("'\n");
        script.append("$balloon.BalloonTipText = '");
        let message = escape_powershell(notification.message.as_str());
        script.append(message.as_str());
        script.append("'\n");
        script.append("$balloon.Visible = $true\n");
        script.append("$balloon.ShowBalloonTip(");
        let timeout = text::u32_decimal(notification.timeout);
        script.append(timeout.as_str());
        script.append(")\n");
        script.append("Start-Sleep -Milliseconds 100\n");
        script.append("$balloon.Dispose()\n");
        proof {
            assert(script@ =~= spec_script(*notification));
        }
        script
    }
}

} // verus!
