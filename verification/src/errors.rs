//! Error values shared by the worker runner and the generated clients.
use vstd::prelude::*;

verus! {

/// Returned to a client when no worker is left to execute its task.
#[derive(Debug, Clone, Copy, PartialEq, Eq, Structural)]
pub struct AllWorkersDroppedError;

/// Returned to a worker when every client has gone and the queue is empty.
#[derive(Debug, Clone, Copy, PartialEq, Eq, Structural)]
pub struct AllClientsDroppedError;

/// Returned when a worker runner is asked to start zero executors.
#[derive(Debug, Clone, Copy, PartialEq, Eq, Structural)]
pub struct InvalidNumberOfExecutors(pub u8);

/// The character of a decimal digit.
pub open spec fn digit_char(d: nat) -> char {
    if d == 0 { '0' }
    else if d == 1 { '1' }
    else if d == 2 { '2' }
    else if d == 3 { '3' }
    else if d == 4 { '4' }
    else if d == 5 { '5' }
    else if d == 6 { '6' }
    else if d == 7 { '7' }
    else if d == 8 { '8' }
    else { '9' }
}

/// The decimal notation of a natural number, without leading zeros.
pub open spec fn decimal(n: nat) -> Seq<char>
    decreases n,
{
    if n < 10 {
        seq![digit_char(n)]
    } else {
        decimal(n / 10).push(digit_char(n % 10))
    }
}

pub open spec fn all_workers_dropped_text() -> Seq<char> {
    "all workers are dropped"@
}

pub open spec fn all_clients_dropped_text() -> Seq<char> {
    "all clients are dropped"@
}

pub open spec fn invalid_number_of_executors_text(n: u8) -> Seq<char> {
    "invalid number of executors: "@ + decimal(n as nat)
}

fn digit_str(d: u8) -> (s: &'static str)
    requires
        d < 10,
    ensures
        s@ == seq![digit_char(d as nat)],
{
    proof {
        reveal_strlit("0");
        reveal_strlit("1");
        reveal_strlit("2");
        reveal_strlit("3");
        reveal_strlit("4");
        reveal_strlit("5");
        reveal_strlit("6");
        reveal_strlit("7");
        reveal_strlit("8");
        reveal_strlit("9");
    }
    match d {
        0 => "0",
        1 => "1",
        2 => "2",
        3 => "3",
        4 => "4",
        5 => "5",
        6 => "6",
        7 => "7",
        8 => "8",
        _ => "9",
    }
}

/// Writes `n` in decimal.
pub fn decimal_string(n: u8) -> (s: String)
    ensures
        s@ == decimal(n as nat),
{
    let mut s = String::new();
    if n >= 100 {
        s.append(digit_str(n / 100));
        s.append(digit_str((n / 10) % 10));
        s.append(digit_str(n % 10));
        assert((n / 10) / 10 == n / 100);
        assert(decimal((n / 10) as nat) == decimal((n / 100) as nat).push(digit_char(((n / 10) % 10) as nat)));
    } else if n >= 10 {
        s.append(digit_str(n / 10));
        s.append(digit_str(n % 10));
        assert(decimal(n as nat) =~= decimal((n / 10) as nat).push(digit_char((n % 10) as nat)));
    } else {
        s.append(digit_str(n));
    }
    s
}

impl AllWorkersDroppedError {
    /// The human-readable description of the error.
    pub fn message(&self) -> (s: String)
        ensures
            s@ == all_workers_dropped_text(),
    {
        String::from_str("all workers are dropped")
    }
}

impl AllClientsDroppedError {
    /// The human-readable description of the error.
    pub fn message(&self) -> (s: String)
        ensures
            s@ == all_clients_dropped_text(),
    {
        String::from_str("all clients are dropped")
    }
}

impl InvalidNumberOfExecutors {
    /// The human-readable description of the error, naming the refused count.
    pub fn message(&self) -> (s: String)
        ensures
            s@ == invalid_number_of_executors_text(self.0),
    {
        let mut s = String::from_str("invalid number of executors: ");
        let digits = decimal_string(self.0);
        s.append(digits.as_str());
        s
    }
}

} // verus!
