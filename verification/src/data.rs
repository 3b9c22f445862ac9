//! Validated, immutable identity record of one sandbox, and the fluent
//! builder that is its only way of coming into existence.

use vstd::prelude::*;
use vstd::string::StrSliceExecFns;
use crate::errors::ValidationError;
use crate::{is_blank, is_space_char};

verus! {

/// Mathematical image of a [`SandboxData`] record.
pub struct SandboxDataView {
    pub id: Seq<char>,
    pub name: Seq<char>,
    pub namespace: Seq<char>,
    pub attempt: u32,
}

/// Immutable identity and metadata of one sandbox. The id is the registry's
/// primary key; every record ever constructed carries a non-blank id, because
/// [`SandboxDataBuilder::build`] is the only constructor and it validates.
#[derive(Debug)]
pub struct SandboxData {
    id: String,
    name: String,
    namespace: String,
    attempt: u32,
}

/// Returns whether every character of `s` is whitespace (true of the empty
/// string). The negation is exactly "non-empty after trimming".
pub fn str_is_blank(s: &str) -> (r: bool)
    ensures
        r == is_blank(s@),
{
    let n = s.unicode_len();
    let mut i: usize = 0;
    while i < n
        invariant
            n == s@.len(),
            i <= n,
            forall|j: int| 0 <= j < i ==> is_space_char(s@[j]),
        decreases n - i,
    {
        let c = s.get_char(i);
        let n: u32 = c as u32;
        if !(n == 0x20 || (0x09 <= n && n <= 0x0D) || n == 0x85 || n == 0xA0 || n == 0x1680 || (
        0x2000 <= n && n <= 0x200A) || n == 0x2028 || n == 0x2029 || n == 0x202F || n == 0x205F
            || n == 0x3000) {
            assert(!is_space_char(s@[i as int]));
            return false;
        }
        i = i + 1;
    }
    true
}

impl View for SandboxData {
    type V = SandboxDataView;

    closed spec fn view(&self) -> SandboxDataView {
        SandboxDataView {
            id: self.id@,
            name: self.name@,
            namespace: self.namespace@,
            attempt: self.attempt,
        }
    }
}

impl SandboxData {
    /// Every record holds a validated, non-blank id.
    #[verifier::type_invariant]
    spec fn type_inv(self) -> bool {
        !is_blank(self.id@)
    }

    pub fn id(&self) -> (r: &str)
        ensures
            r@ == self@.id,
            !is_blank(r@),
    {
        proof {
            use_type_invariant(self);
        }
        self.id.as_str()
    }

    pub fn name(&self) -> (r: &str)
        ensures
            r@ == self@.name,
    {
        self.name.as_str()
    }

    pub fn namespace(&self) -> (r: &str)
        ensures
            r@ == self@.namespace,
    {
        self.namespace.as_str()
    }

    pub fn attempt(&self) -> (r: u32)
        ensures
            r == self@.attempt,
    {
        self.attempt
    }
}

/// Fluent assembler of raw metadata. All fields may be set freely; `build`
/// is all-or-nothing: it validates and only then constructs a record.
pub struct SandboxDataBuilder {
    pub id: String,
    pub name: String,
    pub namespace: String,
    pub attempt: u32,
}

impl Default for SandboxDataBuilder {
    /// Starts from empty strings and a zero attempt count.
    fn default() -> (r: Self)
        ensures
            r.id@ == Seq::<char>::empty(),
            r.name@ == Seq::<char>::empty(),
            r.namespace@ == Seq::<char>::empty(),
            r.attempt == 0u32,
    {
        SandboxDataBuilder {
            id: String::new(),
            name: String::new(),
            namespace: String::new(),
            attempt: 0,
        }
    }
}

impl SandboxDataBuilder {
    pub fn id(self, id: String) -> (r: Self)
        ensures
            r.id@ == id@,
            r.name@ == self.name@,
            r.namespace@ == self.namespace@,
            r.attempt == self.attempt,
    {
        SandboxDataBuilder { id, ..self }
    }

    pub fn name(self, name: String) -> (r: Self)
        ensures
            r.id@ == self.id@,
            r.name@ == name@,
            r.namespace@ == self.namespace@,
            r.attempt == self.attempt,
    {
        SandboxDataBuilder { name, ..self }
    }

    pub fn namespace(self, namespace: String) -> (r: Self)
        ensures
            r.id@ == self.id@,
            r.name@ == self.name@,
            r.namespace@ == namespace@,
            r.attempt == self.attempt,
    {
        SandboxDataBuilder { namespace, ..self }
    }

    pub fn attempt(self, attempt: u32) -> (r: Self)
        ensures
            r.id@ == self.id@,
            r.name@ == self.name@,
            r.namespace@ == self.namespace@,
            r.attempt == attempt,
    {
        SandboxDataBuilder { attempt, ..self }
    }

    /// Validates the assembled fields and produces the immutable record.
    /// Succeeds exactly when the id is non-blank; a blank or absent id is
    /// the single validation failure, and nothing is partially constructed.
    pub fn build(self) -> (r: Result<SandboxData, ValidationError>)
        ensures
            r is Ok <==> !is_blank(self.id@),
            r is Err ==> r->Err_0 == ValidationError::BlankId,
            r is Ok ==> r->Ok_0@ == (SandboxDataView {
                id: self.id@,
                name: self.name@,
                namespace: self.namespace@,
                attempt: self.attempt,
            }),
    {
        if str_is_blank(self.id.as_str()) {
            Err(ValidationError::BlankId)
        } else {
            Ok(SandboxData {
                id: self.id,
                name: self.name,
                namespace: self.namespace,
                attempt: self.attempt,
            })
        }
    }
}

} // verus!
