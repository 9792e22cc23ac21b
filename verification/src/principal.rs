//! Principal and contract identifiers: the structural grammar for standard
//! principal address literals, contract names and asset/value names, and the
//! identifier types built from them. Address validation here is structural
//! (marker character and base-32 alphabet); checksum verification belongs to
//! the cryptographic layer outside this engine.

use vstd::prelude::*;
use crate::strutil::{find_char, spec_find, sub_vec, to_char_vec};

verus! {

/// True for the characters of the base-32 address alphabet: decimal digits
/// and upper-case letters except I, L, O and U.
pub open spec fn is_c32_char(c: char) -> bool {
    (48 <= c as u32 && c as u32 <= 57) || (65 <= c as u32 && c as u32 <= 90 && c != 'I' && c != 'L'
        && c != 'O' && c != 'U')
}

/// The grammar of a standard principal address literal: the leading chain
/// marker `S`, then base-32 characters, within the length bounds an encoded
/// single-owner address can take.
pub open spec fn is_standard_principal_lit(s: Seq<char>) -> bool {
    5 <= s.len() <= 41 && s[0] == 'S' && (forall|i: int|
        1 <= i < s.len() ==> is_c32_char(#[trigger] s[i]))
}

/// True for ASCII letters.
pub open spec fn is_letter(c: char) -> bool {
    (65 <= c as u32 && c as u32 <= 90) || (97 <= c as u32 && c as u32 <= 122)
}

/// True for the characters a contract name may contain after its leading
/// letter: letters, digits, hyphen and underscore.
pub open spec fn is_contract_name_char(c: char) -> bool {
    is_letter(c) || (48 <= c as u32 && c as u32 <= 57) || c == '-' || c == '_'
}

/// The grammar of a contract name: a letter, then contract-name characters,
/// at most forty in all.
pub open spec fn is_contract_name(s: Seq<char>) -> bool {
    1 <= s.len() <= 40 && is_letter(s[0]) && (forall|i: int|
        1 <= i < s.len() ==> is_contract_name_char(#[trigger] s[i]))
}

/// True for the characters a value name may contain after its leading
/// letter: contract-name characters plus the operator characters.
pub open spec fn is_clarity_name_char(c: char) -> bool {
    is_contract_name_char(c) || c == '!' || c == '?' || c == '+' || c == '<' || c == '>' || c
        == '=' || c == '/' || c == '*'
}

/// The grammar of a value name (asset names): a letter, then value-name
/// characters, at most 128 in all.
pub open spec fn is_clarity_name(s: Seq<char>) -> bool {
    1 <= s.len() <= 128 && is_letter(s[0]) && (forall|i: int|
        1 <= i < s.len() ==> is_clarity_name_char(#[trigger] s[i]))
}

fn c32_char_exec(c: char) -> (r: bool)
    ensures
        r == is_c32_char(c),
{
    let u: u32 = c as u32;
    (48 <= u && u <= 57) || (65 <= u && u <= 90 && c != 'I' && c != 'L' && c != 'O' && c != 'U')
}

fn letter_exec(c: char) -> (r: bool)
    ensures
        r == is_letter(c),
{
    let u: u32 = c as u32;
    (65 <= u && u <= 90) || (97 <= u && u <= 122)
}

fn contract_name_char_exec(c: char) -> (r: bool)
    ensures
        r == is_contract_name_char(c),
{
    let u: u32 = c as u32;
    letter_exec(c) || (48 <= u && u <= 57) || c == '-' || c == '_'
}

fn clarity_name_char_exec(c: char) -> (r: bool)
    ensures
        r == is_clarity_name_char(c),
{
    contract_name_char_exec(c) || c == '!' || c == '?' || c == '+' || c == '<' || c == '>' || c
        == '=' || c == '/' || c == '*'
}

/// Decides the standard-principal grammar over a character vector.
pub fn is_standard_principal_chars(v: &Vec<char>) -> (r: bool)
    ensures
        r == is_standard_principal_lit(v@),
{
    if v.len() < 5 || v.len() > 41 {
        return false;
    }
    if v[0] != 'S' {
        return false;
    }
    let mut i: usize = 1;
    while i < v.len()
        invariant
            1 <= i <= v@.len(),
            forall|j: int| 1 <= j < i ==> is_c32_char(#[trigger] v@[j]),
        decreases v@.len() - i,
    {
        if !c32_char_exec(v[i]) {
            return false;
        }
        i = i + 1;
    }
    true
}

/// Decides the contract-name grammar over a character vector.
pub fn is_contract_name_chars(v: &Vec<char>) -> (r: bool)
    ensures
        r == is_contract_name(v@),
{
    if v.len() < 1 || v.len() > 40 {
        return false;
    }
    if !letter_exec(v[0]) {
        return false;
    }
    let mut i: usize = 1;
    while i < v.len()
        invariant
            1 <= i <= v@.len(),
            forall|j: int| 1 <= j < i ==> is_contract_name_char(#[trigger] v@[j]),
        decreases v@.len() - i,
    {
        if !contract_name_char_exec(v[i]) {
            return false;
        }
        i = i + 1;
    }
    true
}

/// Decides the value-name grammar over a character vector.
pub fn is_clarity_name_chars(v: &Vec<char>) -> (r: bool)
    ensures
        r == is_clarity_name(v@),
{
    if v.len() < 1 || v.len() > 128 {
        return false;
    }
    if !letter_exec(v[0]) {
        return false;
    }
    let mut i: usize = 1;
    while i < v.len()
        invariant
            1 <= i <= v@.len(),
            forall|j: int| 1 <= j < i ==> is_clarity_name_char(#[trigger] v@[j]),
        decreases v@.len() - i,
    {
        if !clarity_name_char_exec(v[i]) {
            return false;
        }
        i = i + 1;
    }
    true
}

/// A validated standard principal, held as its address literal.
pub struct PrincipalData {
    pub literal: Vec<char>,
}

impl View for PrincipalData {
    type V = Seq<char>;

    open spec fn view(&self) -> Seq<char> {
        self.literal@
    }
}

impl PrincipalData {
    /// A principal is well-formed when its literal obeys the address grammar.
    pub open spec fn wf(&self) -> bool {
        is_standard_principal_lit(self@)
    }

    /// Parses a standard principal address literal.
    pub fn parse_standard_principal(s: &str) -> (r: Option<PrincipalData>)
        ensures
            match r {
                Some(p) => is_standard_principal_lit(s@) && p@ == s@ && p.wf(),
                None => !is_standard_principal_lit(s@),
            },
    {
        let v = to_char_vec(s);
        if is_standard_principal_chars(&v) {
            Some(PrincipalData { literal: v })
        } else {
            None
        }
    }
}

/// The mathematical value of a qualified contract identifier.
#[verifier::ext_equal]
pub struct QciV {
    pub issuer: Seq<char>,
    pub name: Seq<char>,
}

/// A qualified contract identifier: an issuing principal plus a contract
/// name.
pub struct QualifiedContractIdentifier {
    pub issuer: PrincipalData,
    pub name: Vec<char>,
}

impl View for QualifiedContractIdentifier {
    type V = QciV;

    open spec fn view(&self) -> QciV {
        QciV { issuer: self.issuer@, name: self.name@ }
    }
}

/// Qualified-contract-identifier text: an address literal and a contract
/// name joined by a single dot.
pub open spec fn spec_parse_qci(s: Seq<char>) -> Option<QciV> {
    match spec_find(s, '.') {
        Some(d) => {
            let addr = s.subrange(0, d);
            let name = s.subrange(d + 1, s.len() as int);
            if spec_find(name, '.') is None && is_standard_principal_lit(addr) && is_contract_name(
                name,
            ) {
                Some(QciV { issuer: addr, name })
            } else {
                None
            }
        },
        None => None,
    }
}

impl QualifiedContractIdentifier {
    /// Both parts of a well-formed identifier obey their grammars.
    pub open spec fn wf(&self) -> bool {
        is_standard_principal_lit(self@.issuer) && is_contract_name(self@.name)
    }

    /// Joins a parsed principal and contract name.
    pub fn new(issuer: PrincipalData, name: Vec<char>) -> (r: QualifiedContractIdentifier)
        ensures
            r@ == (QciV { issuer: issuer@, name: name@ }),
    {
        QualifiedContractIdentifier { issuer, name }
    }

    /// Parses `address.contract-name` text into an identifier.
    pub fn parse(s: &str) -> (r: Option<QualifiedContractIdentifier>)
        ensures
            match r {
                Some(q) => spec_parse_qci(s@) == Some(q@) && q.wf(),
                None => spec_parse_qci(s@) is None,
            },
    {
        let v = to_char_vec(s);
        Self::parse_chars(&v)
    }

    /// Parses `address.contract-name` characters into an identifier.
    pub fn parse_chars(v: &Vec<char>) -> (r: Option<QualifiedContractIdentifier>)
        ensures
            match r {
                Some(q) => spec_parse_qci(v@) == Some(q@) && q.wf(),
                None => spec_parse_qci(v@) is None,
            },
    {
        let n = v.len();
        match find_char(v, '.') {
            Some(d) => {
                let addr = sub_vec(v, 0, d);
                let name = sub_vec(v, d + 1, n);
                match find_char(&name, '.') {
                    Some(_) => None,
                    None => {
                        if is_standard_principal_chars(&addr) && is_contract_name_chars(&name) {
                            Some(
                                QualifiedContractIdentifier {
                                    issuer: PrincipalData { literal: addr },
                                    name,
                                },
                            )
                        } else {
                            None
                        }
                    },
                }
            },
            None => None,
        }
    }
}

/// The mathematical value of an asset identifier.
#[verifier::ext_equal]
pub struct AssetIdV {
    pub contract_identifier: QciV,
    pub asset_name: Seq<char>,
}

/// An asset identifier: a contract identifier plus an asset name.
pub struct AssetIdentifier {
    pub contract_identifier: QualifiedContractIdentifier,
    pub asset_name: Vec<char>,
}

impl View for AssetIdentifier {
    type V = AssetIdV;

    open spec fn view(&self) -> AssetIdV {
        AssetIdV { contract_identifier: self.contract_identifier@, asset_name: self.asset_name@ }
    }
}

} // verus!
