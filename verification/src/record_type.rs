//! The closed set of DNS record types a query can ask for, the case-sensitive
//! dispatch from a caller's token to a record type, and the record type's
//! wire code.

use vstd::prelude::*;

use crate::errors::DohError;

verus! {

/// One of the sixteen DNS record types a query can ask for.
#[derive(Debug, Clone, Copy, PartialEq, Eq, Structural)]
pub enum RecordType {
    A,
    AAAA,
    ANY,
    AXFR,
    CAA,
    CNAME,
    IXFR,
    MX,
    NS,
    NULL,
    OPT,
    PTR,
    SOA,
    SRV,
    TLSA,
    TXT,
}

impl RecordType {
    /// The token that names this record type: the exact string a caller must
    /// pass to select it.
    pub open spec fn spec_token(self) -> Seq<char> {
        match self {
            RecordType::A => "A"@,
            RecordType::AAAA => "AAAA"@,
            RecordType::ANY => "ANY"@,
            RecordType::AXFR => "AXFR"@,
            RecordType::CAA => "CAA"@,
            RecordType::CNAME => "CNAME"@,
            RecordType::IXFR => "IXFR"@,
            RecordType::MX => "MX"@,
            RecordType::NS => "NS"@,
            RecordType::NULL => "NULL"@,
            RecordType::OPT => "OPT"@,
            RecordType::PTR => "PTR"@,
            RecordType::SOA => "SOA"@,
            RecordType::SRV => "SRV"@,
            RecordType::TLSA => "TLSA"@,
            RecordType::TXT => "TXT"@,
        }
    }

    /// The IANA-assigned code under which this record type travels on the
    /// wire.
    pub open spec fn spec_code(self) -> u16 {
        match self {
            RecordType::A => 1,
            RecordType::AAAA => 28,
            RecordType::ANY => 255,
            RecordType::AXFR => 252,
            RecordType::CAA => 257,
            RecordType::CNAME => 5,
            RecordType::IXFR => 251,
            RecordType::MX => 15,
            RecordType::NS => 2,
            RecordType::NULL => 10,
            RecordType::OPT => 41,
            RecordType::PTR => 12,
            RecordType::SOA => 6,
            RecordType::SRV => 33,
            RecordType::TLSA => 52,
            RecordType::TXT => 16,
        }
    }

    /// Case-sensitive dispatch from a token to a record type: `Some` exactly
    /// on the sixteen recognized tokens, with no normalization and no partial
    /// matches.
    pub open spec fn spec_of_token(token: Seq<char>) -> Option<RecordType> {
        if token == "A"@ {
            Some(RecordType::A)
        } else if token == "AAAA"@ {
            Some(RecordType::AAAA)
        } else if token == "ANY"@ {
            Some(RecordType::ANY)
        } else if token == "AXFR"@ {
            Some(RecordType::AXFR)
        } else if token == "CAA"@ {
            Some(RecordType::CAA)
        } else if token == "CNAME"@ {
            Some(RecordType::CNAME)
        } else if token == "IXFR"@ {
            Some(RecordType::IXFR)
        } else if token == "MX"@ {
            Some(RecordType::MX)
        } else if token == "NS"@ {
            Some(RecordType::NS)
        } else if token == "NULL"@ {
            Some(RecordType::NULL)
        } else if token == "OPT"@ {
            Some(RecordType::OPT)
        } else if token == "PTR"@ {
            Some(RecordType::PTR)
        } else if token == "SOA"@ {
            Some(RecordType::SOA)
        } else if token == "SRV"@ {
            Some(RecordType::SRV)
        } else if token == "TLSA"@ {
            Some(RecordType::TLSA)
        } else if token == "TXT"@ {
            Some(RecordType::TXT)
        } else {
            None
        }
    }

    /// Select the record type named by `token`: `Ok` exactly when the token
    /// is one of the sixteen recognized names (case-sensitive, exact match),
    /// `UnrecognizedRecordType` on every other string.
    pub fn from_token(token: &str) -> (r: Result<RecordType, DohError>)
        ensures
            r is Ok <==> Self::spec_of_token(token@) is Some,
            (r matches Ok(t) ==> Self::spec_of_token(token@) == Some(t)),
            (r matches Ok(t) ==> t.spec_token() == token@),
            (r matches Err(e) ==> e == DohError::UnrecognizedRecordType),
    {
        if token_eq(token, "A") {
            Ok(RecordType::A)
        } else if token_eq(token, "AAAA") {
            Ok(RecordType::AAAA)
        } else if token_eq(token, "ANY") {
            Ok(RecordType::ANY)
        } else if token_eq(token, "AXFR") {
            Ok(RecordType::AXFR)
        } else if token_eq(token, "CAA") {
            Ok(RecordType::CAA)
        } else if token_eq(token, "CNAME") {
            Ok(RecordType::CNAME)
        } else if token_eq(token, "IXFR") {
            Ok(RecordType::IXFR)
        } else if token_eq(token, "MX") {
            Ok(RecordType::MX)
        } else if token_eq(token, "NS") {
            Ok(RecordType::NS)
        } else if token_eq(token, "NULL") {
            Ok(RecordType::NULL)
        } else if token_eq(token, "OPT") {
            Ok(RecordType::OPT)
        } else if token_eq(token, "PTR") {
            Ok(RecordType::PTR)
        } else if token_eq(token, "SOA") {
            Ok(RecordType::SOA)
        } else if token_eq(token, "SRV") {
            Ok(RecordType::SRV)
        } else if token_eq(token, "TLSA") {
            Ok(RecordType::TLSA)
        } else if token_eq(token, "TXT") {
            Ok(RecordType::TXT)
        } else {
            Err(DohError::UnrecognizedRecordType)
        }
    }

    /// The token that names this record type.
    pub fn token(self) -> (r: &'static str)
        ensures
            r@ == self.spec_token(),
    {
        match self {
            RecordType::A => "A",
            RecordType::AAAA => "AAAA",
            RecordType::ANY => "ANY",
            RecordType::AXFR => "AXFR",
            RecordType::CAA => "CAA",
            RecordType::CNAME => "CNAME",
            RecordType::IXFR => "IXFR",
            RecordType::MX => "MX",
            RecordType::NS => "NS",
            RecordType::NULL => "NULL",
            RecordType::OPT => "OPT",
            RecordType::PTR => "PTR",
            RecordType::SOA => "SOA",
            RecordType::SRV => "SRV",
            RecordType::TLSA => "TLSA",
            RecordType::TXT => "TXT",
        }
    }

    /// The IANA-assigned code under which this record type travels on the
    /// wire.
    pub fn wire_code(self) -> (r: u16)
        ensures
            r == self.spec_code(),
    {
        match self {
            RecordType::A => 1,
            RecordType::AAAA => 28,
            RecordType::ANY => 255,
            RecordType::AXFR => 252,
            RecordType::CAA => 257,
            RecordType::CNAME => 5,
            RecordType::IXFR => 251,
            RecordType::MX => 15,
            RecordType::NS => 2,
            RecordType::NULL => 10,
            RecordType::OPT => 41,
            RecordType::PTR => 12,
            RecordType::SOA => 6,
            RecordType::SRV => 33,
            RecordType::TLSA => 52,
            RecordType::TXT => 16,
        }
    }
}

/// Law: dispatch and naming are mutual inverses — feeding a record type's
/// own token back through dispatch selects exactly that record type, so no
/// token aliases another.
pub proof fn lemma_token_round_trip(t: RecordType)
    ensures
        RecordType::spec_of_token(t.spec_token()) == Some(t),
{
    reveal_strlit("A");
    reveal_strlit("AAAA");
    reveal_strlit("ANY");
    reveal_strlit("AXFR");
    reveal_strlit("CAA");
    reveal_strlit("CNAME");
    reveal_strlit("IXFR");
    reveal_strlit("MX");
    reveal_strlit("NS");
    reveal_strlit("NULL");
    reveal_strlit("OPT");
    reveal_strlit("PTR");
    reveal_strlit("SOA");
    reveal_strlit("SRV");
    reveal_strlit("TLSA");
    reveal_strlit("TXT");
    assert("A"@.len() == 1);
    assert("AAAA"@.len() == 4 && "AAAA"@[0] == 'A' && "AAAA"@[1] == 'A');
    assert("ANY"@.len() == 3 && "ANY"@[0] == 'A');
    assert("AXFR"@.len() == 4 && "AXFR"@[0] == 'A' && "AXFR"@[1] == 'X');
    assert("CAA"@.len() == 3 && "CAA"@[0] == 'C');
    assert("CNAME"@.len() == 5);
    assert("IXFR"@.len() == 4 && "IXFR"@[0] == 'I');
    assert("MX"@.len() == 2 && "MX"@[0] == 'M');
    assert("NS"@.len() == 2 && "NS"@[0] == 'N');
    assert("NULL"@.len() == 4 && "NULL"@[0] == 'N');
    assert("OPT"@.len() == 3 && "OPT"@[0] == 'O');
    assert("PTR"@.len() == 3 && "PTR"@[0] == 'P');
    assert("SOA"@.len() == 3 && "SOA"@[0] == 'S' && "SOA"@[1] == 'O');
    assert("SRV"@.len() == 3 && "SRV"@[0] == 'S' && "SRV"@[1] == 'R');
    assert("TLSA"@.len() == 4 && "TLSA"@[0] == 'T');
    assert("TXT"@.len() == 3 && "TXT"@[0] == 'T');
    match t {
        RecordType::A => assert(RecordType::spec_of_token("A"@) == Some(RecordType::A)),
        RecordType::AAAA => assert(RecordType::spec_of_token("AAAA"@) == Some(RecordType::AAAA)),
        RecordType::ANY => assert(RecordType::spec_of_token("ANY"@) == Some(RecordType::ANY)),
        RecordType::AXFR => assert(RecordType::spec_of_token("AXFR"@) == Some(RecordType::AXFR)),
        RecordType::CAA => assert(RecordType::spec_of_token("CAA"@) == Some(RecordType::CAA)),
        RecordType::CNAME => assert(RecordType::spec_of_token("CNAME"@) == Some(RecordType::CNAME)),
        RecordType::IXFR => assert(RecordType::spec_of_token("IXFR"@) == Some(RecordType::IXFR)),
        RecordType::MX => assert(RecordType::spec_of_token("MX"@) == Some(RecordType::MX)),
        RecordType::NS => assert(RecordType::spec_of_token("NS"@) == Some(RecordType::NS)),
        RecordType::NULL => assert(RecordType::spec_of_token("NULL"@) == Some(RecordType::NULL)),
        RecordType::OPT => assert(RecordType::spec_of_token("OPT"@) == Some(RecordType::OPT)),
        RecordType::PTR => assert(RecordType::spec_of_token("PTR"@) == Some(RecordType::PTR)),
        RecordType::SOA => assert(RecordType::spec_of_token("SOA"@) == Some(RecordType::SOA)),
        RecordType::SRV => assert(RecordType::spec_of_token("SRV"@) == Some(RecordType::SRV)),
        RecordType::TLSA => assert(RecordType::spec_of_token("TLSA"@) == Some(RecordType::TLSA)),
        RecordType::TXT => assert(RecordType::spec_of_token("TXT"@) == Some(RecordType::TXT)),
    }
}

/// Law: dispatch is sound — a token that selects a record type is that
/// record type's own token.
pub proof fn lemma_of_token_sound(token: Seq<char>)
    ensures
        (RecordType::spec_of_token(token) matches Some(t) ==> t.spec_token() == token),
{
}

/// Law: no two record types share a token.
pub proof fn lemma_token_injective(t1: RecordType, t2: RecordType)
    requires
        t1.spec_token() == t2.spec_token(),
    ensures
        t1 == t2,
{
    lemma_token_round_trip(t1);
    lemma_token_round_trip(t2);
}

/// Law: no two record types share a wire code.
pub proof fn lemma_code_injective(t1: RecordType, t2: RecordType)
    requires
        t1.spec_code() == t2.spec_code(),
    ensures
        t1 == t2,
{
}

/// Whether two strings hold the same characters.
fn token_eq(a: &str, b: &str) -> (r: bool)
    ensures
        r == (a@ == b@),
{
    a.to_owned() == b.to_owned()
}

} // verus!
