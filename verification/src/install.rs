//! Deciding which VS Code installation an executable belongs to, one
//! `product.json` at a time.
//!
//! The caller checks files and reads them; these functions decide what each
//! answer means.

use vstd::prelude::*;

use crate::json::{parse_json_bytes, spec_get_str, spec_json_bytes, JsonValue};
use crate::layout::VsCodeInstallation;
use crate::text::{chars_eq, chars_of, owned, push_str};

verus! {

/// Why no installation was found.
#[derive(Debug, Clone, PartialEq, Eq)]
pub enum VsCodeError {
    /// No stable installation was found.
    NotFound,
    /// A stable `product.json` lacks a required field.
    InvalidProduct(String),
    /// A file could not be read.
    Io(String),
    /// A `product.json` is not JSON.
    Json(String),
}

/// The sentence describing an error.
pub open spec fn error_text(e: VsCodeError) -> Seq<char> {
    match e {
        VsCodeError::NotFound => "VS Code stable installation was not found"@,
        VsCodeError::InvalidProduct(m) => "invalid VS Code product metadata: "@ + m@,
        VsCodeError::Io(m) => "I/O error: "@ + m@,
        VsCodeError::Json(m) => "JSON error: "@ + m@,
    }
}

fn prefixed(prefix: &str, rest: &str) -> (r: String)
    ensures
        r@ == prefix@ + rest@,
{
    let mut r = owned(prefix);
    push_str(&mut r, rest);
    r
}

impl VsCodeError {
    /// The error as a sentence.
    pub fn message(&self) -> (r: String)
        ensures
            r@ == error_text(*self),
    {
        match self {
            VsCodeError::NotFound => owned("VS Code stable installation was not found"),
            VsCodeError::InvalidProduct(m) => prefixed("invalid VS Code product metadata: ", m.as_str()),
            VsCodeError::Io(m) => prefixed("I/O error: ", m.as_str()),
            VsCodeError::Json(m) => prefixed("JSON error: ", m.as_str()),
        }
    }
}

/// What reading one candidate `product.json` gave.
pub enum ProductRead {
    /// It is not a file.
    NotAFile,
    /// It could not be read.
    Unreadable(String),
    /// It is not JSON.
    Malformed(String),
    /// Its contents.
    Parsed(JsonValue),
}

impl ProductRead {
    /// The read of a `product.json` whose bytes are `bytes`: its value when
    /// they are JSON, otherwise `Malformed` with serde_json's message.
    pub fn from_bytes(bytes: &[u8]) -> (r: ProductRead)
        ensures
            match spec_json_bytes(bytes@) {
                Some(v) => r == ProductRead::Parsed(v),
                None => r is Malformed,
            },
    {
        match parse_json_bytes(bytes) {
            Ok(value) => ProductRead::Parsed(value),
            Err(message) => ProductRead::Malformed(message),
        }
    }
}

/// What to do after one candidate.
#[derive(Debug)]
pub enum ProductStep {
    /// Try the next candidate.
    Next,
    /// The search for this executable ends with this result.
    Done(Result<VsCodeInstallation, VsCodeError>),
}

/// A non-empty string member.
pub open spec fn required_field(value: JsonValue, name: Seq<char>) -> Option<Seq<char>> {
    match spec_get_str(value, name) {
        Some(s) => if s.len() > 0 {
            Some(s)
        } else {
            None
        },
        None => None,
    }
}

/// Whether a product is stable VS Code (`applicationName` is `code`).
pub open spec fn is_stable_product(value: JsonValue) -> bool {
    spec_get_str(value, "applicationName"@) == Some("code"@)
}

/// The first required field that is missing or empty.
pub open spec fn first_missing(value: JsonValue) -> Option<Seq<char>> {
    if required_field(value, "version"@) is None {
        Some("version"@)
    } else if required_field(value, "nameShort"@) is None {
        Some("nameShort"@)
    } else if required_field(value, "sharedDataFolderName"@) is None {
        Some("sharedDataFolderName"@)
    } else {
        None
    }
}

/// Whether `step` is what the candidate `product_json` of `executable` decides, read as `read`.
pub open spec fn is_product_step(
    executable: Seq<char>,
    product_json: Seq<char>,
    read: ProductRead,
    step: ProductStep,
) -> bool {
    match read {
        ProductRead::NotAFile => step is Next,
        ProductRead::Unreadable(m) => step == ProductStep::Done(Err(VsCodeError::Io(m))),
        ProductRead::Malformed(m) => step == ProductStep::Done(Err(VsCodeError::Json(m))),
        ProductRead::Parsed(value) => if !is_stable_product(value) {
            step is Next
        } else {
            match first_missing(value) {
                Some(name) => match step {
                    ProductStep::Done(Err(VsCodeError::InvalidProduct(m))) => m@ == "missing "@ + name,
                    _ => false,
                },
                None => match step {
                    ProductStep::Done(Ok(found)) => {
                        &&& found.code_exe@ == executable
                        &&& found.product_json@ == product_json
                        &&& Some(found.version@) == required_field(value, "version"@)
                        &&& Some(found.name_short@) == required_field(value, "nameShort"@)
                        &&& Some(found.shared_data_folder_name@) == required_field(
                            value,
                            "sharedDataFolderName"@,
                        )
                    },
                    _ => false,
                },
            }
        },
    }
}

fn required(value: &JsonValue, name: &str) -> (r: Result<String, VsCodeError>)
    ensures
        match r {
            Ok(s) => required_field(*value, name@) == Some(s@),
            Err(e) => required_field(*value, name@) is None && (e matches VsCodeError::InvalidProduct(m)
                && m@ == "missing "@ + name@),
        },
{
    match value.get_str(name) {
        Some(s) => if s.unicode_len() > 0 {
            Ok(owned(s))
        } else {
            Err(VsCodeError::InvalidProduct(prefixed("missing ", name)))
        },
        None => Err(VsCodeError::InvalidProduct(prefixed("missing ", name))),
    }
}

/// Decides one candidate `product_json` of `executable`: a stable product
/// with its fields ends the search with the installation; a read or JSON
/// failure, or a missing field, ends it with that error; anything else moves
/// on to the next candidate.
pub fn product_step(executable: &str, product_json: &str, read: ProductRead) -> (r: ProductStep)
    ensures
        is_product_step(executable@, product_json@, read, r),
{
    let value = match read {
        ProductRead::NotAFile => return ProductStep::Next,
        ProductRead::Unreadable(m) => return ProductStep::Done(Err(VsCodeError::Io(m))),
        ProductRead::Malformed(m) => return ProductStep::Done(Err(VsCodeError::Json(m))),
        ProductRead::Parsed(v) => v,
    };
    let stable = match value.get_str("applicationName") {
        Some(name) => chars_eq(&chars_of(name), &chars_of("code")),
        None => false,
    };
    if !stable {
        return ProductStep::Next;
    }
    let version = match required(&value, "version") {
        Ok(s) => s,
        Err(e) => return ProductStep::Done(Err(e)),
    };
    let name_short = match required(&value, "nameShort") {
        Ok(s) => s,
        Err(e) => return ProductStep::Done(Err(e)),
    };
    let shared_data_folder_name = match required(&value, "sharedDataFolderName") {
        Ok(s) => s,
        Err(e) => return ProductStep::Done(Err(e)),
    };
    ProductStep::Done(
        Ok(
            VsCodeInstallation {
                code_exe: owned(executable),
                product_json: owned(product_json),
                version,
                name_short,
                shared_data_folder_name,
            },
        ),
    )
}

/// The error when no candidate `product.json` described a stable installation.
pub fn product_search_failed() -> (r: VsCodeError)
    ensures
        r matches VsCodeError::InvalidProduct(m) && m@
            == "stable product.json was not found for the executable"@,
{
    VsCodeError::InvalidProduct(owned("stable product.json was not found for the executable"))
}

/// The first installation among the outcomes of the executable candidates
/// (`None` for a candidate that is not a file).
pub open spec fn first_found(outcomes: Seq<Option<Result<VsCodeInstallation, VsCodeError>>>) -> Option<
    VsCodeInstallation,
>
    decreases outcomes.len(),
{
    if outcomes.len() == 0 {
        None
    } else {
        match outcomes[0] {
            Some(Ok(found)) => Some(found),
            _ => first_found(outcomes.drop_first()),
        }
    }
}

impl VsCodeInstallation {
    /// An equal copy of these installation facts.
    pub fn copied(&self) -> (r: Self)
        ensures
            r == *self,
    {
        VsCodeInstallation {
            code_exe: self.code_exe.clone(),
            product_json: self.product_json.clone(),
            version: self.version.clone(),
            name_short: self.name_short.clone(),
            shared_data_folder_name: self.shared_data_folder_name.clone(),
        }
    }
}

/// The outcome of the search for VS Code. A user-given executable decides on
/// its own: its outcome is the result, with no fallback. Otherwise the
/// executable candidates are tried in order (`candidates[i]` is `None` when
/// candidate `i` is not a file, else the outcome of reading its
/// installation): the first installation found wins, and a candidate whose
/// installation cannot be read is passed over. With none, VS Code is not
/// found. The candidates after the first installation do not matter, so they
/// need not be probed.
pub fn discovery_result(
    override_outcome: Option<Result<VsCodeInstallation, VsCodeError>>,
    candidates: &[Option<Result<VsCodeInstallation, VsCodeError>>],
) -> (r: Result<VsCodeInstallation, VsCodeError>)
    ensures
        match override_outcome {
            Some(outcome) => r == outcome,
            None => match first_found(candidates@) {
                Some(found) => r == Ok::<VsCodeInstallation, VsCodeError>(found),
                None => r == Err::<VsCodeInstallation, VsCodeError>(VsCodeError::NotFound),
            },
        },
{
    match override_outcome {
        Some(outcome) => outcome,
        None => match first_installation(candidates) {
            Some(found) => Ok(found),
            None => Err(VsCodeError::NotFound),
        },
    }
}

fn first_installation(candidates: &[Option<Result<VsCodeInstallation, VsCodeError>>]) -> (r: Option<
    VsCodeInstallation,
>)
    ensures
        r == first_found(candidates@),
{
    let mut i: usize = 0;
    assert(candidates@.subrange(0, candidates@.len() as int) =~= candidates@);
    while i < candidates.len()
        invariant
            i <= candidates@.len(),
            first_found(candidates@) == first_found(candidates@.subrange(i as int, candidates@.len() as int)),
        decreases candidates.len() - i,
    {
        let ghost rest = candidates@.subrange(i as int, candidates@.len() as int);
        assert(rest.drop_first() =~= candidates@.subrange(i + 1, candidates@.len() as int));
        assert(rest[0] == candidates@[i as int]);
        match &candidates[i] {
            Some(Ok(found)) => {
                return Some(found.copied());
            },
            _ => {},
        }
        i = i + 1;
    }
    assert(candidates@.subrange(i as int, candidates@.len() as int) =~= Seq::<
        Option<Result<VsCodeInstallation, VsCodeError>>,
    >::empty());
    None
}

} // verus!
