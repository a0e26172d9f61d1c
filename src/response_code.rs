use vstd::prelude::*;

verus! {

/// The outcome a DNS response reports: a four-bit field of the header.
/// Codes that no variant names are kept as `Unknown`, so that no four-bit
/// value is lost.
#[derive(Clone, Copy, Debug, PartialEq, Eq, Structural)]
pub enum ResponseCode {
    /// No error (code 0).
    NoError,
    /// The server could not interpret the query (code 1).
    FormErr,
    /// The server failed to process the query (code 2).
    ServFail,
    /// The queried name does not exist (code 3).
    NXDomain,
    /// The server does not support the kind of query (code 4).
    NotImp,
    /// The server refuses the operation (code 5).
    Refused,
    /// A name exists that should not (code 6, RFC 2136).
    YXDomain,
    /// A record set exists that should not (code 7, RFC 2136).
    YXRRSet,
    /// A record set that should exist does not (code 8, RFC 2136).
    NXRRSet,
    /// The server is not authoritative for the zone (code 9, RFC 2136).
    NotAuth,
    /// A name is not within the zone (code 10, RFC 2136).
    NotZone,
    /// Any other code, held as it came.
    Unknown(u8),
}

impl ResponseCode {
    /// The variant for a numeric code.
    pub open spec fn from_code_spec(code: u8) -> ResponseCode {
        if code == 0 {
            ResponseCode::NoError
        } else if code == 1 {
            ResponseCode::FormErr
        } else if code == 2 {
            ResponseCode::ServFail
        } else if code == 3 {
            ResponseCode::NXDomain
        } else if code == 4 {
            ResponseCode::NotImp
        } else if code == 5 {
            ResponseCode::Refused
        } else if code == 6 {
            ResponseCode::YXDomain
        } else if code == 7 {
            ResponseCode::YXRRSet
        } else if code == 8 {
            ResponseCode::NXRRSet
        } else if code == 9 {
            ResponseCode::NotAuth
        } else if code == 10 {
            ResponseCode::NotZone
        } else {
            ResponseCode::Unknown(code)
        }
    }

    /// The numeric code of a variant.
    pub open spec fn code_spec(self) -> u8 {
        match self {
            ResponseCode::NoError => 0,
            ResponseCode::FormErr => 1,
            ResponseCode::ServFail => 2,
            ResponseCode::NXDomain => 3,
            ResponseCode::NotImp => 4,
            ResponseCode::Refused => 5,
            ResponseCode::YXDomain => 6,
            ResponseCode::YXRRSet => 7,
            ResponseCode::NXRRSet => 8,
            ResponseCode::NotAuth => 9,
            ResponseCode::NotZone => 10,
            ResponseCode::Unknown(c) => c,
        }
    }

    /// A variant fits the four-bit wire field, and an `Unknown` code is
    /// not one that a named variant stands for.
    pub open spec fn wf(self) -> bool {
        match self {
            ResponseCode::Unknown(c) => 10 < c && c < 16,
            _ => true,
        }
    }

    /// Maps any code to a variant; this never fails.
    pub fn from_code(code: u8) -> (r: ResponseCode)
        ensures
            r == ResponseCode::from_code_spec(code),
    {
        if code == 0 {
            ResponseCode::NoError
        } else if code == 1 {
            ResponseCode::FormErr
        } else if code == 2 {
            ResponseCode::ServFail
        } else if code == 3 {
            ResponseCode::NXDomain
        } else if code == 4 {
            ResponseCode::NotImp
        } else if code == 5 {
            ResponseCode::Refused
        } else if code == 6 {
            ResponseCode::YXDomain
        } else if code == 7 {
            ResponseCode::YXRRSet
        } else if code == 8 {
            ResponseCode::NXRRSet
        } else if code == 9 {
            ResponseCode::NotAuth
        } else if code == 10 {
            ResponseCode::NotZone
        } else {
            ResponseCode::Unknown(code)
        }
    }

    /// The numeric code of this variant.
    pub fn code(&self) -> (r: u8)
        ensures
            r == self.code_spec(),
    {
        match self {
            ResponseCode::NoError => 0,
            ResponseCode::FormErr => 1,
            ResponseCode::ServFail => 2,
            ResponseCode::NXDomain => 3,
            ResponseCode::NotImp => 4,
            ResponseCode::Refused => 5,
            ResponseCode::YXDomain => 6,
            ResponseCode::YXRRSet => 7,
            ResponseCode::NXRRSet => 8,
            ResponseCode::NotAuth => 9,
            ResponseCode::NotZone => 10,
            ResponseCode::Unknown(c) => *c,
        }
    }
}

/// Every code comes back from its variant unchanged.
pub proof fn lemma_response_code_from_then_code(code: u8)
    ensures
        ResponseCode::from_code_spec(code).code_spec() == code,
        code < 16 ==> ResponseCode::from_code_spec(code).wf(),
{
}

/// Every well-formed variant comes back from its code unchanged.
pub proof fn lemma_response_code_code_then_from(rc: ResponseCode)
    requires
        rc.wf(),
    ensures
        ResponseCode::from_code_spec(rc.code_spec()) == rc,
        rc.code_spec() < 16,
{
}

} // verus!
