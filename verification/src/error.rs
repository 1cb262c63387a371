//! The kinds of record, and the one error that a caller can meet: a record
//! that is not there.

use vstd::prelude::*;
use vstd::string::StringExecFns;

verus! {

/// The five kinds of record. Each has a table of its own.
#[derive(Clone, Copy, Debug, PartialEq, Eq, Structural)]
pub enum Kind {
    UserProfile,
    TransactionRecord,
    InsuranceContract,
    GovernanceProposal,
    StakeAdjustment,
}

/// The number of the partition that holds the identifier counter.
pub const COUNTER_PARTITION: u8 = 0;

impl Kind {
    /// How the kind is called in a message.
    pub open spec fn name(self) -> Seq<char> {
        match self {
            Kind::UserProfile => "User profile"@,
            Kind::TransactionRecord => "Transaction record"@,
            Kind::InsuranceContract => "Insurance contract"@,
            Kind::GovernanceProposal => "Governance proposal"@,
            Kind::StakeAdjustment => "Stake adjustment"@,
        }
    }

    /// The number of the partition that holds the kind's table. It must not
    /// change once records have been stored.
    pub open spec fn partition_number(self) -> u8 {
        match self {
            Kind::UserProfile => 1,
            Kind::TransactionRecord => 2,
            Kind::InsuranceContract => 3,
            Kind::GovernanceProposal => 4,
            Kind::StakeAdjustment => 5,
        }
    }

    /// The greatest number of bytes that a stored record of the kind takes.
    pub open spec fn ceiling(self) -> nat {
        match self {
            Kind::UserProfile => 2048,
            Kind::TransactionRecord => 1024,
            Kind::InsuranceContract => 2048,
            Kind::GovernanceProposal => 2048,
            Kind::StakeAdjustment => 1024,
        }
    }

    /// How the kind is called in a message.
    pub fn label(self) -> (text: &'static str)
        ensures
            text@ == self.name(),
    {
        match self {
            Kind::UserProfile => "User profile",
            Kind::TransactionRecord => "Transaction record",
            Kind::InsuranceContract => "Insurance contract",
            Kind::GovernanceProposal => "Governance proposal",
            Kind::StakeAdjustment => "Stake adjustment",
        }
    }

    /// The number of the partition that holds the kind's table.
    pub fn partition(self) -> (number: u8)
        ensures
            number == self.partition_number(),
    {
        match self {
            Kind::UserProfile => 1,
            Kind::TransactionRecord => 2,
            Kind::InsuranceContract => 3,
            Kind::GovernanceProposal => 4,
            Kind::StakeAdjustment => 5,
        }
    }

    /// The greatest number of bytes that a stored record of the kind takes.
    pub fn max_size(self) -> (bytes: usize)
        ensures
            bytes == self.ceiling(),
    {
        match self {
            Kind::UserProfile => 2048,
            Kind::TransactionRecord => 1024,
            Kind::InsuranceContract => 2048,
            Kind::GovernanceProposal => 2048,
            Kind::StakeAdjustment => 1024,
        }
    }
}

/// What went wrong.
#[derive(Clone, Debug, PartialEq, Eq)]
pub enum Error {
    /// No record is stored under the identifier. `msg` names the kind and
    /// the identifier.
    NotFound { msg: String },
}

/// An error as a mathematical value.
pub ghost enum ErrorModel {
    NotFound { msg: Seq<char> },
}

impl View for Error {
    type V = ErrorModel;

    open spec fn view(&self) -> ErrorModel {
        match self {
            Error::NotFound { msg } => ErrorModel::NotFound { msg: msg@ },
        }
    }
}

impl Error {
    /// The text of the error.
    pub fn message(&self) -> (text: String)
        ensures
            self@ == (ErrorModel::NotFound { msg: text@ }),
    {
        match self {
            Error::NotFound { msg } => msg.clone(),
        }
    }
}

/// The decimal digit for a number below ten.
pub open spec fn digit(d: nat) -> char {
    if d == 0 {
        '0'
    } else if d == 1 {
        '1'
    } else if d == 2 {
        '2'
    } else if d == 3 {
        '3'
    } else if d == 4 {
        '4'
    } else if d == 5 {
        '5'
    } else if d == 6 {
        '6'
    } else if d == 7 {
        '7'
    } else if d == 8 {
        '8'
    } else {
        '9'
    }
}

/// A number written in decimal, without leading zeros.
pub open spec fn decimal(n: nat) -> Seq<char>
    decreases n,
{
    if n < 10 {
        seq![digit(n)]
    } else {
        decimal(n / 10) + seq![digit(n % 10)]
    }
}

/// The message that says that no record of `kind` is stored under `id`.
pub open spec fn not_found_text(kind: Kind, id: u64) -> Seq<char> {
    kind.name() + " with id="@ + decimal(id as nat) + " not found"@
}

/// The error that says that no record of `kind` is stored under `id`.
pub open spec fn not_found_model(kind: Kind, id: u64) -> ErrorModel {
    ErrorModel::NotFound { msg: not_found_text(kind, id) }
}

/// The decimal digit for a number below ten, as a text of one character.
fn digit_text(d: u64) -> (text: &'static str)
    requires
        d < 10,
    ensures
        text@ == seq![digit(d as nat)],
{
    proof {
        reveal_strlit("0");
        reveal_strlit("1");
        reveal_strlit("2");
        reveal_strlit("3");
        reveal_strlit("4");
        reveal_strlit("5");
        reveal_strlit("6");
        reveal_strlit("7");
        reveal_strlit("8");
        reveal_strlit("9");
    }
    let text = if d == 0 {
        "0"
    } else if d == 1 {
        "1"
    } else if d == 2 {
        "2"
    } else if d == 3 {
        "3"
    } else if d == 4 {
        "4"
    } else if d == 5 {
        "5"
    } else if d == 6 {
        "6"
    } else if d == 7 {
        "7"
    } else if d == 8 {
        "8"
    } else {
        "9"
    };
    assert(text@ =~= seq![digit(d as nat)]);
    text
}

/// Writes a number in decimal.
pub fn decimal_string(n: u64) -> (text: String)
    ensures
        text@ == decimal(n as nat),
{
    let mut text = String::from_str(digit_text(n % 10));
    let mut rest: u64 = n / 10;
    while rest > 0
        invariant
            decimal(n as nat) == if rest == 0 {
                text@
            } else {
                decimal(rest as nat) + text@
            },
        decreases rest,
    {
        let longer = String::from_str(digit_text(rest % 10)).concat(text.as_str());
        proof {
            let d = seq![digit((rest % 10) as nat)];
            if rest >= 10 {
                assert(decimal((rest / 10) as nat) + d + text@ =~= decimal((rest / 10) as nat) + (d
                    + text@));
            }
        }
        text = longer;
        rest = rest / 10;
    }
    text
}

/// The error that says that no record of `kind` is stored under `id`.
pub fn not_found(kind: Kind, id: u64) -> (error: Error)
    ensures
        error@ == not_found_model(kind, id),
{
    let mut msg = String::from_str(kind.label());
    msg.append(" with id=");
    let number = decimal_string(id);
    msg.append(number.as_str());
    msg.append(" not found");
    Error::NotFound { msg }
}

} // verus!
