use vstd::prelude::*;

verus! {

/// The kind of operation a DNS message carries: a four-bit field of the
/// header. Codes that no RFC allocates are kept as `Unknown`, so that no
/// four-bit value is lost.
#[derive(Clone, Copy, Debug, PartialEq, Eq, Structural)]
pub enum OpCode {
    /// A standard query (code 0).
    Query,
    /// An inverse query (code 1, obsoleted by RFC 3425).
    IQuery,
    /// A server status request (code 2).
    Status,
    /// A zone change notification (code 4, RFC 1996).
    Notify,
    /// A dynamic update (code 5, RFC 2136).
    Update,
    /// Any other code, held as it came.
    Unknown(u8),
}

/// Whether `code` is one of the allocated opcodes named by a variant.
pub open spec fn op_code_allocated(code: u8) -> bool {
    code == 0 || code == 1 || code == 2 || code == 4 || code == 5
}

impl OpCode {
    /// The variant for a numeric code.
    pub open spec fn from_code_spec(code: u8) -> OpCode {
        if code == 0 {
            OpCode::Query
        } else if code == 1 {
            OpCode::IQuery
        } else if code == 2 {
            OpCode::Status
        } else if code == 4 {
            OpCode::Notify
        } else if code == 5 {
            OpCode::Update
        } else {
            OpCode::Unknown(code)
        }
    }

    /// The numeric code of a variant.
    pub open spec fn code_spec(self) -> u8 {
        match self {
            OpCode::Query => 0,
            OpCode::IQuery => 1,
            OpCode::Status => 2,
            OpCode::Notify => 4,
            OpCode::Update => 5,
            OpCode::Unknown(c) => c,
        }
    }

    /// A variant fits the four-bit wire field, and an `Unknown` code is
    /// not one that a named variant stands for.
    pub open spec fn wf(self) -> bool {
        match self {
            OpCode::Unknown(c) => c < 16 && !op_code_allocated(c),
            _ => true,
        }
    }

    /// Maps any code to a variant; this never fails.
    pub fn from_code(code: u8) -> (r: OpCode)
        ensures
            r == OpCode::from_code_spec(code),
    {
        if code == 0 {
            OpCode::Query
        } else if code == 1 {
            OpCode::IQuery
        } else if code == 2 {
            OpCode::Status
        } else if code == 4 {
            OpCode::Notify
        } else if code == 5 {
            OpCode::Update
        } else {
            OpCode::Unknown(code)
        }
    }

    /// The numeric code of this variant.
    pub fn code(&self) -> (r: u8)
        ensures
            r == self.code_spec(),
    {
        match self {
            OpCode::Query => 0,
            OpCode::IQuery => 1,
            OpCode::Status => 2,
            OpCode::Notify => 4,
            OpCode::Update => 5,
            OpCode::Unknown(c) => *c,
        }
    }
}

/// Every code comes back from its variant unchanged.
pub proof fn lemma_op_code_from_then_code(code: u8)
    ensures
        OpCode::from_code_spec(code).code_spec() == code,
        code < 16 ==> OpCode::from_code_spec(code).wf(),
{
}

/// Every well-formed variant comes back from its code unchanged.
pub proof fn lemma_op_code_code_then_from(op: OpCode)
    requires
        op.wf(),
    ensures
        OpCode::from_code_spec(op.code_spec()) == op,
        op.code_spec() < 16,
{
}

} // verus!
