use vstd::prelude::*;

verus! {

/// What an error-observing logger knows: the error code it waits for, and whether
/// a record with that code has been delivered.
pub ghost struct LoggerState {
    pub expected: Seq<char>,
    pub observed: bool,
}

impl LoggerState {
    /// A logger that waits for `expected` and has seen no record yet.
    pub open spec fn fresh(expected: Seq<char>) -> LoggerState {
        LoggerState { expected, observed: false }
    }

    /// The state after one record with error code `code` is delivered: the flag is
    /// set when the codes are equal and is never cleared.
    pub open spec fn deliver(self, code: Seq<char>) -> LoggerState {
        LoggerState { expected: self.expected, observed: self.observed || code == self.expected }
    }

    /// The state after the records with the codes in `codes` are delivered, in order.
    pub open spec fn deliver_all(self, codes: Seq<Seq<char>>) -> LoggerState
        decreases codes.len(),
    {
        if codes.len() == 0 {
            self
        } else {
            self.deliver(codes[0]).deliver_all(codes.drop_first())
        }
    }
}

/// Watches the log records of the host engine for one expected error code.
pub struct ItestErrorLogger {
    expected_error: String,
    was_error_called: bool,
}

impl View for ItestErrorLogger {
    type V = LoggerState;

    closed spec fn view(&self) -> LoggerState {
        LoggerState { expected: self.expected_error@, observed: self.was_error_called }
    }
}

impl ItestErrorLogger {
    /// A logger that waits for `expected_error` and has not seen it yet.
    pub fn new(expected_error: String) -> (r: ItestErrorLogger)
        ensures
            r@ == LoggerState::fresh(expected_error@),
    {
        ItestErrorLogger { expected_error, was_error_called: false }
    }

    /// Whether a record with the expected error code has been delivered.
    pub fn was_error_called(&self) -> (r: bool)
        ensures
            r == self@.observed,
    {
        self.was_error_called
    }

    /// Receives one error record of the host engine. Only its error code is read:
    /// when it equals the expected one, the observed flag is set.
    pub fn log_error(
        &mut self,
        _function: String,
        _file: String,
        _line: i32,
        code: String,
        _rationale: String,
        _editor_notify: bool,
        _error_type: i32,
        _backtrace: Vec<String>,
    )
        ensures
            final(self)@ == old(self)@.deliver(code@),
    {
        if code == self.expected_error {
            self.was_error_called = true;
        }
    }
}

/// A record whose error code is the expected one sets the observed flag.
pub proof fn lemma_matching_record_observed(s: LoggerState)
    ensures
        s.deliver(s.expected).observed,
        s.deliver(s.expected).expected == s.expected,
{
}

/// A record whose error code differs from the expected one changes nothing; in
/// particular a logger that has not observed the error still has not.
pub proof fn lemma_other_record_ignored(s: LoggerState, code: Seq<char>)
    requires
        code != s.expected,
    ensures
        s.deliver(code) == s,
{
}

/// Once set, the observed flag stays set whatever records follow, and the
/// expected code never changes.
pub proof fn lemma_observed_stays(s: LoggerState, codes: Seq<Seq<char>>)
    requires
        s.observed,
    ensures
        s.deliver_all(codes).observed,
        s.deliver_all(codes).expected == s.expected,
    decreases codes.len(),
{
    if codes.len() > 0 {
        lemma_observed_stays(s.deliver(codes[0]), codes.drop_first());
    }
}

/// Delivering records never changes the expected code, and the flag ends up set
/// exactly when it was set before or one of the records carries the expected code.
pub proof fn lemma_deliver_all_observed(s: LoggerState, codes: Seq<Seq<char>>)
    ensures
        s.deliver_all(codes).expected == s.expected,
        s.deliver_all(codes).observed == (s.observed || codes.contains(s.expected)),
    decreases codes.len(),
{
    if codes.len() > 0 {
        let t = s.deliver(codes[0]);
        lemma_deliver_all_observed(t, codes.drop_first());
        if codes.drop_first().contains(s.expected) {
            let i = choose|i: int| 0 <= i < codes.drop_first().len() && codes.drop_first()[i] == s.expected;
            assert(codes[i + 1] == s.expected);
        }
        if codes.contains(s.expected) && codes[0] != s.expected {
            let i = choose|i: int| 0 <= i < codes.len() && codes[i] == s.expected;
            assert(codes.drop_first()[i - 1] == s.expected);
        }
    }
}

} // verus!
