use crate::parser::ParseError;
use vstd::prelude::*;
use vstd::string::*;

verus! {

/// Operation code of a message (the IANA "DNS OpCodes" registry).
#[derive(Debug, Clone, Copy, PartialEq, Eq, Structural)]
pub enum OpCode {
    Query,
    Iquery,
    Status,
    Notify,
    Update,
}

/// Whether `v` is a value of the operation code registry.
pub open spec fn is_op_code_value(v: u8) -> bool {
    v == 0 || v == 1 || v == 2 || v == 4 || v == 5
}

impl OpCode {
    /// The registry value of the code.
    pub open spec fn value(self) -> u8 {
        match self {
            OpCode::Query => 0,
            OpCode::Iquery => 1,
            OpCode::Status => 2,
            OpCode::Notify => 4,
            OpCode::Update => 5,
        }
    }

    /// The mnemonic of the code.
    pub open spec fn mnemonic(self) -> Seq<char> {
        match self {
            OpCode::Query => "QUERY"@,
            OpCode::Iquery => "IQUERY"@,
            OpCode::Status => "STATUS"@,
            OpCode::Notify => "NOTIFY"@,
            OpCode::Update => "UPDATE"@,
        }
    }

    /// The registry value of the code; total.
    pub fn to_u8(self) -> (r: u8)
        ensures
            r == self.value(),
    {
        match self {
            OpCode::Query => 0,
            OpCode::Iquery => 1,
            OpCode::Status => 2,
            OpCode::Notify => 4,
            OpCode::Update => 5,
        }
    }

    /// The code whose registry value is `v`; any other value is rejected.
    pub fn from_u8(v: u8) -> (r: Result<OpCode, ParseError>)
        ensures
            r is Ok <==> is_op_code_value(v),
            r matches Ok(c) ==> c.value() == v,
            r matches Err(e) ==> e.is_unsupported(v, "OpCode"@),
    {
        match v {
            0 => Ok(OpCode::Query),
            1 => Ok(OpCode::Iquery),
            2 => Ok(OpCode::Status),
            4 => Ok(OpCode::Notify),
            5 => Ok(OpCode::Update),
            _ => Err(ParseError::unsupported(v, "OpCode")),
        }
    }

    /// The mnemonic of the code, such as `QUERY`.
    pub fn to_string(&self) -> (r: String)
        ensures
            r@ == self.mnemonic(),
    {
        match self {
            OpCode::Query => String::from_str("QUERY"),
            OpCode::Iquery => String::from_str("IQUERY"),
            OpCode::Status => String::from_str("STATUS"),
            OpCode::Notify => String::from_str("NOTIFY"),
            OpCode::Update => String::from_str("UPDATE"),
        }
    }
}

impl From<OpCode> for u8 {
    fn from(c: OpCode) -> (r: u8) {
        c.to_u8()
    }
}

impl vstd::std_specs::convert::FromSpecImpl<OpCode> for u8 {
    open spec fn obeys_from_spec() -> bool {
        true
    }

    open spec fn from_spec(c: OpCode) -> u8 {
        c.value()
    }
}

/// Response code of a message (the IANA "DNS RCODEs" registry, values 0 to 10).
#[derive(Debug, Clone, Copy, PartialEq, Eq, Structural)]
pub enum ErrorCode {
    NoError,
    FormErr,
    ServFail,
    NXDomain,
    NotImp,
    Refused,
    YXDomain,
    YXRRSet,
    NXRRSet,
    NotAuth,
    NotZone,
}

/// Whether `v` is a value of the response code registry.
pub open spec fn is_error_code_value(v: u8) -> bool {
    v <= 10
}

impl ErrorCode {
    /// The registry value of the code.
    pub open spec fn value(self) -> u8 {
        match self {
            ErrorCode::NoError => 0,
            ErrorCode::FormErr => 1,
            ErrorCode::ServFail => 2,
            ErrorCode::NXDomain => 3,
            ErrorCode::NotImp => 4,
            ErrorCode::Refused => 5,
            ErrorCode::YXDomain => 6,
            ErrorCode::YXRRSet => 7,
            ErrorCode::NXRRSet => 8,
            ErrorCode::NotAuth => 9,
            ErrorCode::NotZone => 10,
        }
    }

    /// The mnemonic of the code.
    pub open spec fn mnemonic(self) -> Seq<char> {
        match self {
            ErrorCode::NoError => "NOERROR"@,
            ErrorCode::FormErr => "FORMERR"@,
            ErrorCode::ServFail => "SERVFAIL"@,
            ErrorCode::NXDomain => "NXDOMAIN"@,
            ErrorCode::NotImp => "NOTIMP"@,
            ErrorCode::Refused => "REFUSED"@,
            ErrorCode::YXDomain => "YXDOMAIN"@,
            ErrorCode::YXRRSet => "YXRRSET"@,
            ErrorCode::NXRRSet => "NXRRSET"@,
            ErrorCode::NotAuth => "NOTAUTH"@,
            ErrorCode::NotZone => "NOTZONE"@,
        }
    }

    /// The registry value of the code; total.
    pub fn to_u8(self) -> (r: u8)
        ensures
            r == self.value(),
    {
        match self {
            ErrorCode::NoError => 0,
            ErrorCode::FormErr => 1,
            ErrorCode::ServFail => 2,
            ErrorCode::NXDomain => 3,
            ErrorCode::NotImp => 4,
            ErrorCode::Refused => 5,
            ErrorCode::YXDomain => 6,
            ErrorCode::YXRRSet => 7,
            ErrorCode::NXRRSet => 8,
            ErrorCode::NotAuth => 9,
            ErrorCode::NotZone => 10,
        }
    }

    /// The code whose registry value is `v`; any other value is rejected.
    pub fn from_u8(v: u8) -> (r: Result<ErrorCode, ParseError>)
        ensures
            r is Ok <==> is_error_code_value(v),
            r matches Ok(c) ==> c.value() == v,
            r matches Err(e) ==> e.is_unsupported(v, "ErrorCode"@),
    {
        match v {
            0 => Ok(ErrorCode::NoError),
            1 => Ok(ErrorCode::FormErr),
            2 => Ok(ErrorCode::ServFail),
            3 => Ok(ErrorCode::NXDomain),
            4 => Ok(ErrorCode::NotImp),
            5 => Ok(ErrorCode::Refused),
            6 => Ok(ErrorCode::YXDomain),
            7 => Ok(ErrorCode::YXRRSet),
            8 => Ok(ErrorCode::NXRRSet),
            9 => Ok(ErrorCode::NotAuth),
            10 => Ok(ErrorCode::NotZone),
            _ => Err(ParseError::unsupported(v, "ErrorCode")),
        }
    }

    /// The mnemonic of the code, such as `NOERROR`.
    pub fn to_string(&self) -> (r: String)
        ensures
            r@ == self.mnemonic(),
    {
        match self {
            ErrorCode::NoError => String::from_str("NOERROR"),
            ErrorCode::FormErr => String::from_str("FORMERR"),
            ErrorCode::ServFail => String::from_str("SERVFAIL"),
            ErrorCode::NXDomain => String::from_str("NXDOMAIN"),
            ErrorCode::NotImp => String::from_str("NOTIMP"),
            ErrorCode::Refused => String::from_str("REFUSED"),
            ErrorCode::YXDomain => String::from_str("YXDOMAIN"),
            ErrorCode::YXRRSet => String::from_str("YXRRSET"),
            ErrorCode::NXRRSet => String::from_str("NXRRSET"),
            ErrorCode::NotAuth => String::from_str("NOTAUTH"),
            ErrorCode::NotZone => String::from_str("NOTZONE"),
        }
    }
}

impl From<ErrorCode> for u8 {
    fn from(c: ErrorCode) -> (r: u8) {
        c.to_u8()
    }
}

impl vstd::std_specs::convert::FromSpecImpl<ErrorCode> for u8 {
    open spec fn obeys_from_spec() -> bool {
        true
    }

    open spec fn from_spec(c: ErrorCode) -> u8 {
        c.value()
    }
}


/// The single-bit flags of a header: QR, AA, TC, RD and RA, one bit each of a byte.
///
/// Only the five named bits are ever set: every constructor and every update
/// masks the others out, so the reserved bits of the wire format never reach
/// equality or display.
#[derive(Debug, Clone, Copy, PartialEq, Eq, Structural)]
pub struct Flags {
    bits: u8,
}

impl View for Flags {
    type V = u8;

    closed spec fn view(&self) -> u8 {
        self.bits
    }
}

impl Flags {
    /// The message is a response.
    pub const QR: u8 = 0b0001_0000;

    /// The answer is authoritative.
    pub const AA: u8 = 0b0000_1000;

    /// The message was truncated.
    pub const TC: u8 = 0b0000_0100;

    /// Recursion is desired.
    pub const RD: u8 = 0b0000_0010;

    /// Recursion is available.
    pub const RA: u8 = 0b0000_0001;

    /// The five named bits together.
    pub const DEFINED_BITS: u8 = 0b0001_1111;

    /// No bit outside the five named ones is set.
    pub open spec fn wf(self) -> bool {
        self@ & !Flags::DEFINED_BITS == 0
    }

    /// Every bit of `mask` is set.
    pub open spec fn has(self, mask: u8) -> bool {
        self@ & mask == mask
    }

    /// The rendering: a space and the lower-case name of each set flag, in
    /// the order QR, AA, TC, RD, RA.
    pub open spec fn text(self) -> Seq<char> {
        (if self.has(Flags::QR) { " qr"@ } else { Seq::empty() })
            + (if self.has(Flags::AA) { " aa"@ } else { Seq::empty() })
            + (if self.has(Flags::TC) { " tc"@ } else { Seq::empty() })
            + (if self.has(Flags::RD) { " rd"@ } else { Seq::empty() })
            + (if self.has(Flags::RA) { " ra"@ } else { Seq::empty() })
    }

    /// Two flag sets are equal exactly when their bits are.
    pub proof fn lemma_view_injective(a: Flags, b: Flags)
        ensures
            a@ == b@ <==> a == b,
    {
    }

    /// No flag set.
    pub fn empty() -> (r: Flags)
        ensures
            r@ == 0,
            r.wf(),
    {
        let r = Flags { bits: 0 };
        assert(0u8 & !0b0001_1111u8 == 0) by (bit_vector);
        r
    }

    /// The flags of `bits`; the bits outside the five named ones are dropped.
    pub fn from_bits_truncate(bits: u8) -> (r: Flags)
        ensures
            r@ == bits & Flags::DEFINED_BITS,
            r.wf(),
    {
        let r = Flags { bits: bits & Flags::DEFINED_BITS };
        assert((bits & 0b0001_1111) & !0b0001_1111u8 == 0) by (bit_vector);
        r
    }

    /// The flags as a byte.
    pub fn bits(&self) -> (r: u8)
        ensures
            r == self@,
    {
        self.bits
    }

    /// Whether every bit of `mask` is set.
    pub fn contains(&self, mask: u8) -> (r: bool)
        ensures
            r == self.has(mask),
    {
        self.bits & mask == mask
    }

    /// Sets the named bits of `mask`.
    pub fn insert(&mut self, mask: u8)
        ensures
            final(self)@ == old(self)@ | (mask & Flags::DEFINED_BITS),
            old(self).wf() ==> final(self).wf(),
    {
        let b = self.bits;
        self.bits = b | (mask & Flags::DEFINED_BITS);
        assert(b & !0b0001_1111u8 == 0 ==> (b | (mask & 0b0001_1111)) & !0b0001_1111u8 == 0)
            by (bit_vector);
    }

    /// Clears the bits of `mask`.
    pub fn remove(&mut self, mask: u8)
        ensures
            final(self)@ == old(self)@ & !mask,
            old(self).wf() ==> final(self).wf(),
    {
        let b = self.bits;
        self.bits = b & !mask;
        assert(b & !0b0001_1111u8 == 0 ==> (b & !mask) & !0b0001_1111u8 == 0) by (bit_vector);
    }

    /// The rendering of the set flags, such as `" qr rd"`; empty when none is set.
    pub fn to_string(&self) -> (r: String)
        ensures
            r@ == self.text(),
    {
        let mut r = String::new();
        if self.contains(Flags::QR) {
            r.append(" qr");
        }
        if self.contains(Flags::AA) {
            r.append(" aa");
        }
        if self.contains(Flags::TC) {
            r.append(" tc");
        }
        if self.contains(Flags::RD) {
            r.append(" rd");
        }
        if self.contains(Flags::RA) {
            r.append(" ra");
        }
        r
    }
}


/// The fixed header of a message: transaction id, codes, flags and the four section counts.
#[derive(Debug, Clone, Copy, PartialEq, Eq, Structural)]
pub struct Header {
    pub id: u16,
    pub op_code: OpCode,
    pub status: ErrorCode,
    pub flags: Flags,
    pub question_count: u16,
    pub answer_count: u16,
    pub auth_count: u16,
    pub additional_count: u16,
}

impl Header {
    /// The flags hold no bit outside the five named ones.
    pub open spec fn wf(self) -> bool {
        self.flags.wf()
    }
}

} // verus!
