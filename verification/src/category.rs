//! The closed set of attachment categories and its string encoding.

use vstd::prelude::*;
use vstd::string::StringExecFns;
use crate::text::str_eq;

verus! {

/// Category tag of an attachment; any persisted value is drawn from this
/// closed enumeration.
#[derive(Clone, Copy, PartialEq, Eq, Structural, Debug)]
pub enum AttachmentType {
    Pdf,
    Image,
    Excel,
    Csv,
    Zip,
}

/// The string stored in the database for each category.
pub open spec fn spec_string_value(c: AttachmentType) -> Seq<char> {
    match c {
        AttachmentType::Pdf => "Pdf"@,
        AttachmentType::Image => "Image"@,
        AttachmentType::Excel => "Excel"@,
        AttachmentType::Csv => "Csv"@,
        AttachmentType::Zip => "Zip"@,
    }
}

/// The category encoded by a string, if any.
pub open spec fn spec_parse_category(s: Seq<char>) -> Option<AttachmentType> {
    if s == "Pdf"@ {
        Some(AttachmentType::Pdf)
    } else if s == "Image"@ {
        Some(AttachmentType::Image)
    } else if s == "Excel"@ {
        Some(AttachmentType::Excel)
    } else if s == "Csv"@ {
        Some(AttachmentType::Csv)
    } else if s == "Zip"@ {
        Some(AttachmentType::Zip)
    } else {
        None
    }
}

impl AttachmentType {
    /// The stored string form of this category.
    pub fn string_value(&self) -> (r: String)
        ensures
            r@ == spec_string_value(*self),
    {
        match self {
            AttachmentType::Pdf => String::from_str("Pdf"),
            AttachmentType::Image => String::from_str("Image"),
            AttachmentType::Excel => String::from_str("Excel"),
            AttachmentType::Csv => String::from_str("Csv"),
            AttachmentType::Zip => String::from_str("Zip"),
        }
    }
}

/// Decode a stored category string; any string outside the enumeration is
/// rejected with `None`.
pub fn parse_category(s: &str) -> (r: Option<AttachmentType>)
    ensures
        r == spec_parse_category(s@),
{
    if str_eq(s, "Pdf") {
        Some(AttachmentType::Pdf)
    } else if str_eq(s, "Image") {
        Some(AttachmentType::Image)
    } else if str_eq(s, "Excel") {
        Some(AttachmentType::Excel)
    } else if str_eq(s, "Csv") {
        Some(AttachmentType::Csv)
    } else if str_eq(s, "Zip") {
        Some(AttachmentType::Zip)
    } else {
        None
    }
}

/// Encoding then decoding a category yields the category back.
pub proof fn lemma_category_round_trip(c: AttachmentType)
    ensures
        spec_parse_category(spec_string_value(c)) == Some(c),
{
    broadcast use vstd::string::group_string_axioms;

    reveal_strlit("Pdf");
    reveal_strlit("Image");
    reveal_strlit("Excel");
    reveal_strlit("Csv");
    reveal_strlit("Zip");
    // Lengths and first characters separate the five stored strings.
    assert("Pdf"@.len() == 3 && "Pdf"@[0] == 'P');
    assert("Image"@.len() == 5 && "Image"@[0] == 'I');
    assert("Excel"@.len() == 5 && "Excel"@[0] == 'E');
    assert("Csv"@.len() == 3 && "Csv"@[0] == 'C');
    assert("Zip"@.len() == 3 && "Zip"@[0] == 'Z');
    match c {
        AttachmentType::Pdf => {
            assert(spec_parse_category("Pdf"@) == Some(AttachmentType::Pdf));
        },
        AttachmentType::Image => {
            assert(spec_parse_category("Image"@) == Some(AttachmentType::Image));
        },
        AttachmentType::Excel => {
            assert(spec_parse_category("Excel"@) == Some(AttachmentType::Excel));
        },
        AttachmentType::Csv => {
            assert(spec_parse_category("Csv"@) == Some(AttachmentType::Csv));
        },
        AttachmentType::Zip => {
            assert(spec_parse_category("Zip"@) == Some(AttachmentType::Zip));
        },
    }
}

/// Parsing accepts exactly the five stored strings: a parsed category came
/// from its own string form, and `None` means the string encodes no category.
pub proof fn lemma_parse_category_exact(s: Seq<char>)
    ensures
        spec_parse_category(s) matches Some(c) ==> s == spec_string_value(c),
        spec_parse_category(s) is None <==> (forall|c: AttachmentType| s != spec_string_value(c)),
{
    if spec_parse_category(s) is None {
        assert forall|c: AttachmentType| s != spec_string_value(c) by {
            match c {
                AttachmentType::Pdf => {},
                AttachmentType::Image => {},
                AttachmentType::Excel => {},
                AttachmentType::Csv => {},
                AttachmentType::Zip => {},
            }
        }
    }
}

} // verus!
