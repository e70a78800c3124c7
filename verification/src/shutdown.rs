use std::time::Duration;

use vstd::prelude::*;

verus! {

/// What ends a server: the operating system (SIGTERM or Ctrl-C), or a
/// value provided by the caller (in practice a future whose completion is
/// the signal).
pub enum ShutdownSignalKind<F> {
    OsSignal,
    Custom(F),
}

impl<F> ShutdownSignalKind<F> {
    /// The text `{:?}` shows for this kind: the custom payload is never shown.
    pub open spec fn debug_text(self) -> Seq<char> {
        match self {
            ShutdownSignalKind::OsSignal => "OsSignal"@,
            ShutdownSignalKind::Custom(_) => "Custom(\"Future\")"@,
        }
    }

    /// The text `{:#?}` shows for this kind: the custom form is spread over
    /// lines, its field indented by four spaces.
    pub open spec fn pretty_debug_text(self) -> Seq<char> {
        match self {
            ShutdownSignalKind::OsSignal => "OsSignal"@,
            ShutdownSignalKind::Custom(_) => "Custom(\n    \"Future\",\n)"@,
        }
    }

    /// Pretty debug rendering of the kind.
    pub fn pretty_debug_string(&self) -> (s: String)
        ensures
            s@ == self.pretty_debug_text(),
    {
        match self {
            ShutdownSignalKind::OsSignal => "OsSignal".to_owned(),
            ShutdownSignalKind::Custom(_) => "Custom(\n    \"Future\",\n)".to_owned(),
        }
    }

    /// Debug rendering of the kind.
    pub fn debug_string(&self) -> (s: String)
        ensures
            s@ == self.debug_text(),
    {
        match self {
            ShutdownSignalKind::OsSignal => "OsSignal".to_owned(),
            ShutdownSignalKind::Custom(_) => "Custom(\"Future\")".to_owned(),
        }
    }
}

/// The text that `{:?}` shows for a duration (as `100ms` or `1.5s`): a
/// function of the duration alone.
pub uninterp spec fn duration_debug_text(d: Duration) -> Seq<char>;

/// Calls `<Duration as Debug>::fmt` through `format!("{:?}", ..)`: the
/// duration's debug text.
#[verifier::external_body]
fn duration_debug_string(d: Duration) -> (s: String)
    ensures
        s@ == duration_debug_text(d),
{
    format!("{:?}", d)
}

/// The text `{:?}` shows for an optional grace period.
pub open spec fn grace_period_debug_text(grace: Option<Duration>) -> Seq<char> {
    match grace {
        None => "None"@,
        Some(d) => "Some("@ + duration_debug_text(d) + ")"@,
    }
}

/// The text `{:?}` shows for a signal of trigger `kind` and grace period
/// `grace`, where the grace period's duration shows as `duration_text`.
pub open spec fn signal_debug_text<F>(
    kind: ShutdownSignalKind<F>,
    grace: Option<Duration>,
    duration_text: Seq<char>,
) -> Seq<char> {
    "ShutdownSignal { kind: "@ + kind.debug_text() + ", grace_period: "@ + (match grace {
        None => "None"@,
        Some(_) => "Some("@ + duration_text + ")"@,
    }) + " }"@
}

/// Graceful shutdown signal for an application: what triggers it, and how
/// long connections may still run once it has fired.
pub struct ShutdownSignal<F> {
    kind: ShutdownSignalKind<F>,
    grace_period: Option<Duration>,
}

impl<F> ShutdownSignal<F> {
    /// The trigger of this signal.
    pub closed spec fn spec_kind(self) -> ShutdownSignalKind<F> {
        self.kind
    }

    /// The grace period granted once the signal has fired (`None`: no limit).
    pub closed spec fn spec_grace_period(self) -> Option<Duration> {
        self.grace_period
    }

    /// This signal with `duration` as its grace period.
    pub closed spec fn spec_with_grace_period(self, duration: Duration) -> Self {
        ShutdownSignal { kind: self.kind, grace_period: Some(duration) }
    }

    /// Shutdown is signalled by SIGTERM or Ctrl-C; no grace period is set.
    pub fn os_signal() -> (s: Self)
        ensures
            s.spec_kind() is OsSignal,
            s.spec_grace_period() is None,
    {
        ShutdownSignal { kind: ShutdownSignalKind::OsSignal, grace_period: None }
    }

    /// Shutdown is signalled by `signal` (the completion of a future); no
    /// grace period is set.
    pub fn custom(signal: F) -> (s: Self)
        ensures
            s.spec_kind() == ShutdownSignalKind::Custom(signal),
            s.spec_grace_period() is None,
    {
        ShutdownSignal { kind: ShutdownSignalKind::Custom(signal), grace_period: None }
    }

    /// Configure a grace period that allows connections to finish; it
    /// replaces any grace period set before, and keeps the trigger.
    pub fn grace_period(self, duration: Duration) -> (s: Self)
        ensures
            s == self.spec_with_grace_period(duration),
            s.spec_kind() == self.spec_kind(),
            s.spec_grace_period() == Some(duration),
    {
        ShutdownSignal { kind: self.kind, grace_period: Some(duration) }
    }

    /// The trigger of this signal.
    pub fn kind(&self) -> (k: &ShutdownSignalKind<F>)
        ensures
            *k == self.spec_kind(),
    {
        &self.kind
    }

    /// The grace period of this signal.
    pub fn grace(&self) -> (g: Option<Duration>)
        ensures
            g == self.spec_grace_period(),
    {
        self.grace_period
    }

    /// Debug rendering of the signal, given the debug text of its grace
    /// period's duration (unused when no grace period is set).
    pub fn debug_string_with(&self, duration_text: &str) -> (s: String)
        ensures
            s@ == signal_debug_text(self.spec_kind(), self.spec_grace_period(), duration_text@),
    {
        let mut s = "ShutdownSignal { kind: ".to_owned();
        let kind = self.kind.debug_string();
        s.append(kind.as_str());
        s.append(", grace_period: ");
        match self.grace_period {
            None => s.append("None"),
            Some(_) => {
                s.append("Some(");
                s.append(duration_text);
                s.append(")");
            },
        }
        s.append(" }");
        s
    }

    /// Debug rendering of the signal: its kind and its grace period.
    pub fn debug_string(&self) -> (s: String)
        ensures
            s@ == "ShutdownSignal { kind: "@ + self.spec_kind().debug_text() + ", grace_period: "@
                + grace_period_debug_text(self.spec_grace_period()) + " }"@,
            self.spec_grace_period() is None ==> s@ == "ShutdownSignal { kind: "@
                + self.spec_kind().debug_text() + ", grace_period: None }"@,
            self.spec_grace_period() matches Some(d) ==> s@ == "ShutdownSignal { kind: "@
                + self.spec_kind().debug_text() + ", grace_period: Some("@ + duration_debug_text(d)
                + ") }"@,
    {
        match self.grace_period {
            None => {
                let s = self.debug_string_with("");
                proof {
                    lemma_debug_text_without_grace_period(*self, ""@);
                }
                s
            },
            Some(d) => {
                let text = duration_debug_string(d);
                let s = self.debug_string_with(text.as_str());
                proof {
                    lemma_debug_text_shows_grace_period(*self, d, text@);
                }
                s
            },
        }
    }

    /// Splits the signal into what to wait for and what to report once it
    /// has fired: waiting for a signal yields its grace period.
    pub fn into_wait(self) -> (parts: (ShutdownSignalKind<F>, Option<Duration>))
        ensures
            parts.0 == self.spec_kind(),
            parts.1 == self.spec_grace_period(),
    {
        (self.kind, self.grace_period)
    }
}

/// Setting a grace period twice keeps the later one; the trigger is never
/// changed by it.
pub proof fn lemma_grace_period_last_wins<F>(s: ShutdownSignal<F>, first: Duration, second: Duration)
    ensures
        s.spec_with_grace_period(first).spec_with_grace_period(second)
            == s.spec_with_grace_period(second),
        s.spec_with_grace_period(second).spec_kind() == s.spec_kind(),
{
}

/// A set grace period always shows as `Some(..)` around the duration's own
/// text, whatever that text is; an unset one shows as `None`.
pub proof fn lemma_grace_period_text(d: Duration)
    ensures
        grace_period_debug_text(Some(d)) == "Some("@ + duration_debug_text(d) + ")"@,
        grace_period_debug_text(None) == "None"@,
{
}

/// The kinds show as `OsSignal` and `Custom("Future")`, whatever the custom
/// payload is.
pub proof fn lemma_kind_text<F>(payload: F)
    ensures
        ShutdownSignalKind::<F>::OsSignal.debug_text() == "OsSignal"@,
        ShutdownSignalKind::Custom(payload).debug_text() == "Custom(\"Future\")"@,
        ShutdownSignalKind::<F>::OsSignal.pretty_debug_text() == "OsSignal"@,
        ShutdownSignalKind::Custom(payload).pretty_debug_text() == "Custom(\n    \"Future\",\n)"@,
{
}

/// Setting a grace period `d` makes the signal's debug text show `Some(..)`
/// around the duration's text, after the unchanged kind. The text given to
/// `debug_string_with` is shown the same way.
pub proof fn lemma_debug_text_shows_grace_period<F>(
    s: ShutdownSignal<F>,
    d: Duration,
    duration_text: Seq<char>,
)
    ensures
        ({
            let t = s.spec_with_grace_period(d);
            "ShutdownSignal { kind: "@ + t.spec_kind().debug_text() + ", grace_period: "@
                + grace_period_debug_text(t.spec_grace_period()) + " }"@ == "ShutdownSignal { kind: "@
                + s.spec_kind().debug_text() + ", grace_period: Some("@ + duration_debug_text(d)
                + ") }"@
        }),
        signal_debug_text(s.spec_kind(), Some(d), duration_text) == "ShutdownSignal { kind: "@
            + s.spec_kind().debug_text() + ", grace_period: Some("@ + duration_text + ") }"@,
{
    reveal_strlit("ShutdownSignal { kind: ");
    reveal_strlit(", grace_period: ");
    reveal_strlit(", grace_period: Some(");
    reveal_strlit(", grace_period: None }");
    reveal_strlit("Some(");
    reveal_strlit(")");
    reveal_strlit(") }");
    reveal_strlit(" }");
    reveal_strlit("None");
    let k = s.spec_kind().debug_text();
    let dt = duration_debug_text(d);
    assert("ShutdownSignal { kind: "@ + k + ", grace_period: "@ + ("Some("@ + dt + ")"@) + " }"@
        =~= "ShutdownSignal { kind: "@ + k + ", grace_period: Some("@ + dt + ") }"@);
    assert("ShutdownSignal { kind: "@ + k + ", grace_period: "@ + ("Some("@ + duration_text
        + ")"@) + " }"@ =~= "ShutdownSignal { kind: "@ + k + ", grace_period: Some("@
        + duration_text + ") }"@);
}

/// A signal without a grace period shows `None` after its kind, whatever
/// duration text is given.
pub proof fn lemma_debug_text_without_grace_period<F>(s: ShutdownSignal<F>, duration_text: Seq<char>)
    ensures
        signal_debug_text(s.spec_kind(), None, duration_text) == "ShutdownSignal { kind: "@
            + s.spec_kind().debug_text() + ", grace_period: None }"@,
{
    reveal_strlit("ShutdownSignal { kind: ");
    reveal_strlit(", grace_period: ");
    reveal_strlit(", grace_period: None }");
    reveal_strlit(" }");
    reveal_strlit("None");
    let k = s.spec_kind().debug_text();
    assert("ShutdownSignal { kind: "@ + k + ", grace_period: "@ + "None"@ + " }"@
        =~= "ShutdownSignal { kind: "@ + k + ", grace_period: None }"@);
}

} // verus!
