//! The ways in which a request can be turned down.
use vstd::prelude::*;
use vstd::string::StringExecFns;

verus! {

/// The character of a decimal digit.
pub open spec fn digit(d: nat) -> char {
    if d == 0 {
        '0'
    } else if d == 1 {
        '1'
    } else if d == 2 {
        '2'
    } else if d == 3 {
        '3'
    } else if d == 4 {
        '4'
    } else if d == 5 {
        '5'
    } else if d == 6 {
        '6'
    } else if d == 7 {
        '7'
    } else if d == 8 {
        '8'
    } else {
        '9'
    }
}

/// The decimal digits of `n`, the most significant first, without leading
/// zeros.
pub open spec fn decimal(n: nat) -> Seq<char>
    decreases n,
{
    if n < 10 {
        seq![digit(n)]
    } else {
        decimal(n / 10).push(digit(n % 10))
    }
}

/// The characters of a list of digits that stands in reverse, the least
/// significant digit first.
pub open spec fn reversed_digits(digits: Seq<u8>) -> Seq<char> {
    Seq::new(digits.len(), |i: int| digit(digits[digits.len() - 1 - i] as nat))
}

/// The text of one decimal digit.
fn digit_text(d: u8) -> (text: &'static str)
    requires
        d < 10,
    ensures
        text@ == seq![digit(d as nat)],
{
    proof {
        reveal_strlit("0");
        reveal_strlit("1");
        reveal_strlit("2");
        reveal_strlit("3");
        reveal_strlit("4");
        reveal_strlit("5");
        reveal_strlit("6");
        reveal_strlit("7");
        reveal_strlit("8");
        reveal_strlit("9");
    }
    let text = if d == 0 {
        "0"
    } else if d == 1 {
        "1"
    } else if d == 2 {
        "2"
    } else if d == 3 {
        "3"
    } else if d == 4 {
        "4"
    } else if d == 5 {
        "5"
    } else if d == 6 {
        "6"
    } else if d == 7 {
        "7"
    } else if d == 8 {
        "8"
    } else {
        "9"
    };
    assert(text@ =~= seq![digit(d as nat)]);
    text
}

/// Writes `n` in decimal digits.
pub fn decimal_text(n: u64) -> (text: String)
    ensures
        text@ == decimal(n as nat),
{
    let mut digits: Vec<u8> = Vec::new();
    let mut rest: u64 = n;
    proof {
        assert(decimal(n as nat) =~= decimal(rest as nat) + reversed_digits(digits@));
    }
    while rest >= 10
        invariant
            decimal(n as nat) == decimal(rest as nat) + reversed_digits(digits@),
            forall|i: int| 0 <= i < digits@.len() ==> digits@[i] < 10,
        decreases rest,
    {
        let ghost before = digits@;
        let d: u8 = (rest % 10) as u8;
        digits.push(d);
        proof {
            assert(reversed_digits(digits@) =~= seq![digit(d as nat)] + reversed_digits(before));
            assert(decimal(rest as nat) == decimal((rest / 10) as nat).push(digit(d as nat)));
            assert(decimal((rest / 10) as nat).push(digit(d as nat)) + reversed_digits(before)
                =~= decimal((rest / 10) as nat) + (seq![digit(d as nat)] + reversed_digits(
                before,
            )));
        }
        rest = rest / 10;
    }
    let mut text = String::from_str(digit_text(rest as u8));
    let ghost tail = reversed_digits(digits@);
    let mut i: usize = digits.len();
    proof {
        assert(text@ =~= decimal(rest as nat) + tail.take(0));
    }
    while i > 0
        invariant
            i <= digits@.len(),
            tail == reversed_digits(digits@),
            forall|k: int| 0 <= k < digits@.len() ==> digits@[k] < 10,
            text@ == decimal(rest as nat) + tail.take(digits@.len() - i),
        decreases i,
    {
        i -= 1;
        let ghost before = text@;
        text.append(digit_text(digits[i]));
        proof {
            let done = digits@.len() - 1 - i;
            assert(tail[done] == digit(digits@[i as int] as nat));
            assert(tail.take(done + 1) =~= tail.take(done).push(tail[done]));
            assert(text@ =~= decimal(rest as nat) + tail.take(done + 1));
        }
    }
    proof {
        assert(tail.take(digits@.len() as int) =~= tail);
    }
    text
}

/// Why a request was turned down.  A request that is turned down leaves the
/// ledger as it was.
#[derive(Debug, PartialEq, Eq)]
pub enum ContractError {
    /// A failure reported by the host, carried as its message.
    Std(String),
    Unauthorized(String),
    /// Bad parameters, a payment of the wrong shape, or a sum that does not
    /// fit the machine's integers.
    InvalidInput(String),
    PlanNotFound(u64),
    PlanActive {},
    PlanNotActive {},
    PlanFull {},
    AlreadyParticipant {},
    NotParticipant {},
    InsufficientTrustScore {},
    InsufficientContributions {},
    AlreadyRequested {},
    JoinRequestNotFound {},
    AlreadyApproved {},
    NotFound,
}

/// The mathematical content of a [`ContractError`].
pub enum ErrorView {
    Std(Seq<char>),
    Unauthorized(Seq<char>),
    InvalidInput(Seq<char>),
    PlanNotFound(u64),
    PlanActive,
    PlanNotActive,
    PlanFull,
    AlreadyParticipant,
    NotParticipant,
    InsufficientTrustScore,
    InsufficientContributions,
    AlreadyRequested,
    JoinRequestNotFound,
    AlreadyApproved,
    NotFound,
}

impl View for ContractError {
    type V = ErrorView;

    open spec fn view(&self) -> ErrorView {
        match self {
            ContractError::Std(m) => ErrorView::Std(m@),
            ContractError::Unauthorized(m) => ErrorView::Unauthorized(m@),
            ContractError::InvalidInput(m) => ErrorView::InvalidInput(m@),
            ContractError::PlanNotFound(id) => ErrorView::PlanNotFound(*id),
            ContractError::PlanActive {  } => ErrorView::PlanActive,
            ContractError::PlanNotActive {  } => ErrorView::PlanNotActive,
            ContractError::PlanFull {  } => ErrorView::PlanFull,
            ContractError::AlreadyParticipant {  } => ErrorView::AlreadyParticipant,
            ContractError::NotParticipant {  } => ErrorView::NotParticipant,
            ContractError::InsufficientTrustScore {  } => ErrorView::InsufficientTrustScore,
            ContractError::InsufficientContributions {  } => ErrorView::InsufficientContributions,
            ContractError::AlreadyRequested {  } => ErrorView::AlreadyRequested,
            ContractError::JoinRequestNotFound {  } => ErrorView::JoinRequestNotFound,
            ContractError::AlreadyApproved {  } => ErrorView::AlreadyApproved,
            ContractError::NotFound => ErrorView::NotFound,
        }
    }
}

/// The reason given when the plan parameters are out of bounds.
pub open spec fn reason_parameters() -> Seq<char> {
    "Invalid input parameters"@
}

/// The reason given when the cadence is not one of the three names.
pub open spec fn reason_frequency() -> Seq<char> {
    "Invalid frequency"@
}

/// The reason given when less was transferred than was declared.
pub open spec fn reason_funds() -> Seq<char> {
    "Insufficient funds sent"@
}

/// The reason given when the payer has no start time in the plan.
pub open spec fn reason_not_started() -> Seq<char> {
    "participant not started"@
}

/// The reason given when the cycle is already paid in full.
pub open spec fn reason_satisfied() -> Seq<char> {
    "Already fully contributed this cycle"@
}

/// The reason given when a plan without partial payments is paid another
/// amount than the one that is due.
pub open spec fn reason_inexact() -> Seq<char> {
    "Must contribute exact amount"@
}

/// The reason given when a payment exceeds what is due for the cycle.
pub open spec fn reason_excess() -> Seq<char> {
    "Contribution exceeds remaining for this cycle"@
}

/// The reason given when a sum or a counter leaves the range of its integer
/// type.
pub open spec fn reason_overflow() -> Seq<char> {
    "Arithmetic overflow"@
}

/// What is said of a failure to those who made the request.
pub open spec fn spec_message(e: ErrorView) -> Seq<char> {
    match e {
        ErrorView::Std(message) => message,
        ErrorView::Unauthorized(reason) => "Unauthorized: "@ + reason,
        ErrorView::InvalidInput(reason) => "Invalid input: "@ + reason,
        ErrorView::PlanNotFound(id) => "Plan not found with id "@ + decimal(id as nat),
        ErrorView::PlanActive => "Plan is already active"@,
        ErrorView::PlanNotActive => "Plan is not active"@,
        ErrorView::PlanFull => "Plan is already full"@,
        ErrorView::AlreadyParticipant => "You are already a participant"@,
        ErrorView::NotParticipant => "You are not a participant"@,
        ErrorView::InsufficientTrustScore => "Your trust score is too low to join this plan"@,
        ErrorView::InsufficientContributions => "Not enough total contributions to distribute payout"@,
        ErrorView::AlreadyRequested => "Join request already exists"@,
        ErrorView::JoinRequestNotFound => "Join request not found"@,
        ErrorView::AlreadyApproved => "Already approved"@,
        ErrorView::NotFound => "Item not found"@,
    }
}

impl ContractError {
    /// What is said of the failure to those who made the request.
    pub fn message(&self) -> (text: String)
        ensures
            text@ == spec_message(self@),
    {
        match self {
            ContractError::Std(message) => message.clone(),
            ContractError::Unauthorized(reason) => String::from_str("Unauthorized: ").concat(
                reason.as_str(),
            ),
            ContractError::InvalidInput(reason) => String::from_str("Invalid input: ").concat(
                reason.as_str(),
            ),
            ContractError::PlanNotFound(id) => String::from_str("Plan not found with id ").concat(
                decimal_text(*id).as_str(),
            ),
            ContractError::PlanActive {  } => String::from_str("Plan is already active"),
            ContractError::PlanNotActive {  } => String::from_str("Plan is not active"),
            ContractError::PlanFull {  } => String::from_str("Plan is already full"),
            ContractError::AlreadyParticipant {  } => String::from_str(
                "You are already a participant",
            ),
            ContractError::NotParticipant {  } => String::from_str("You are not a participant"),
            ContractError::InsufficientTrustScore {  } => String::from_str(
                "Your trust score is too low to join this plan",
            ),
            ContractError::InsufficientContributions {  } => String::from_str(
                "Not enough total contributions to distribute payout",
            ),
            ContractError::AlreadyRequested {  } => String::from_str("Join request already exists"),
            ContractError::JoinRequestNotFound {  } => String::from_str("Join request not found"),
            ContractError::AlreadyApproved {  } => String::from_str("Already approved"),
            ContractError::NotFound => String::from_str("Item not found"),
        }
    }

    /// An `InvalidInput` with the given reason.
    pub fn invalid_input(reason: &str) -> (e: ContractError)
        ensures
            e@ == ErrorView::InvalidInput(reason@),
    {
        ContractError::InvalidInput(reason.to_owned())
    }

    /// The failure for a sum or a counter that leaves the range of its type.
    pub fn overflow() -> (e: ContractError)
        ensures
            e@ == ErrorView::InvalidInput(reason_overflow()),
    {
        ContractError::invalid_input("Arithmetic overflow")
    }
}

} // verus!
