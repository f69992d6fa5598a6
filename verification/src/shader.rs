//! Shader registry: maps a stable identifier to shader source text.
//!
//! Registration happens only during plugin installation and is idempotent per
//! identifier; re-registering an identifier with different source text is a
//! programmer error and is reported loudly instead of being applied silently.

use vstd::prelude::*;
use vstd::string::StrSliceExecFns;

verus! {

/// Stable identifier for a registered block of shader source text.
///
/// A handle uniquely identifies content, is comparable by identity, and is
/// never mutated after registration.
#[derive(Clone, Copy, PartialEq, Eq, Structural, Debug)]
pub struct ShaderHandle {
    pub id: u64,
}

/// Errors raised by the shader registry.
#[derive(Clone, Copy, PartialEq, Eq, Structural, Debug)]
pub enum RegistryError {
    /// A handle was resolved that was never registered.
    UnknownShaderHandle,
    /// An identifier was registered a second time with different source text.
    ConflictingRegistration,
}

/// One registered shader: its stable identifier and its source text.
pub struct ShaderEntry {
    pub id: u64,
    pub source: String,
}

/// The registry itself: a list of entries with pairwise distinct identifiers.
pub struct ShaderRegistry {
    pub entries: Vec<ShaderEntry>,
}

impl ShaderRegistry {
    /// Well-formedness: no identifier occurs twice.
    pub open spec fn wf(self) -> bool {
        forall|i: int, j: int|
            0 <= i < j < self.entries@.len() ==> self.entries@[i].id != self.entries@[j].id
    }

    /// Whether some entry carries the identifier `id`.
    pub open spec fn has_id(self, id: u64) -> bool {
        exists|i: int| 0 <= i < self.entries@.len() && self.entries@[i].id == id
    }

    /// The index of the entry carrying `id` (meaningful only when `has_id`).
    pub open spec fn index_of(self, id: u64) -> int {
        choose|i: int| 0 <= i < self.entries@.len() && self.entries@[i].id == id
    }

    /// The source text registered under `id`, if any.
    pub open spec fn spec_source(self, id: u64) -> Option<Seq<char>> {
        if self.has_id(id) {
            Some(self.entries@[self.index_of(id)].source@)
        } else {
            None
        }
    }

    /// In a well-formed registry the entry for an identifier is unique, so any
    /// index whose entry carries `id` is the index `spec_source` reads.
    pub proof fn lemma_index_of(self, id: u64, i: int)
        requires
            self.wf(),
            0 <= i < self.entries@.len(),
            self.entries@[i].id == id,
        ensures
            self.has_id(id),
            self.index_of(id) == i,
    {
        assert(self.has_id(id));
        let k = self.index_of(id);
        if k < i {
            assert(self.entries@[k].id != self.entries@[i].id);
        } else if i < k {
            assert(self.entries@[i].id != self.entries@[k].id);
        }
    }

    /// An empty registry: nothing resolves.
    pub fn new() -> (r: ShaderRegistry)
        ensures
            r.wf(),
            forall|id: u64| r.spec_source(id) is None,
            r.entries@.len() == 0,
    {
        ShaderRegistry { entries: Vec::new() }
    }

    /// Register `source` under `id`.
    ///
    /// Idempotent per identifier: registering the same identifier with the
    /// same source again returns the same handle and changes nothing.
    /// Registering an identifier bound to different source text fails with
    /// `ConflictingRegistration` and changes nothing.
    pub fn register(&mut self, id: u64, source: String) -> (r: Result<
        ShaderHandle,
        RegistryError,
    >)
        requires
            old(self).wf(),
        ensures
            final(self).wf(),
            r is Ok <==> (old(self).spec_source(id) is None || old(self).spec_source(id)
                == Some(source@)),
            r matches Ok(h) ==> h == (ShaderHandle { id }) && final(self).spec_source(id) == Some(
                source@,
            ),
            forall|other: u64|
                other != id ==> final(self).spec_source(other) == old(self).spec_source(other),
            old(self).has_id(id) ==> *final(self) == *old(self),
            r is Err ==> r == Err::<ShaderHandle, RegistryError>(
                RegistryError::ConflictingRegistration,
            ) && *final(self) == *old(self),
    {
        let n = self.entries.len();
        let mut i: usize = 0;
        while i < n
            invariant
                *self == *old(self),
                self.wf(),
                n == self.entries@.len(),
                i <= n,
                forall|j: int| 0 <= j < i ==> self.entries@[j].id != id,
            decreases n - i,
        {
            if self.entries[i].id == id {
                proof {
                    self.lemma_index_of(id, i as int);
                }
                if str_view_eq(self.entries[i].source.as_str(), source.as_str()) {
                    return Ok(ShaderHandle { id });
                } else {
                    return Err(RegistryError::ConflictingRegistration);
                }
            }
            i += 1;
        }
        assert(!old(self).has_id(id));
        self.entries.push(ShaderEntry { id, source });
        proof {
            self.lemma_index_of(id, old(self).entries@.len() as int);
            assert forall|other: u64| other != id implies self.spec_source(other)
                == old(self).spec_source(other) by {
                if old(self).has_id(other) {
                    let w = old(self).index_of(other);
                    old(self).lemma_index_of(other, w);
                    self.lemma_index_of(other, w);
                } else {
                    assert(forall|j: int|
                        0 <= j < self.entries@.len() ==> self.entries@[j].id != other);
                }
            }
        }
        Ok(ShaderHandle { id })
    }

    /// Resolve a handle to the registered source text; fails with
    /// `UnknownShaderHandle` exactly when the identifier was never registered.
    pub fn resolve(&self, handle: ShaderHandle) -> (r: Result<String, RegistryError>)
        requires
            self.wf(),
        ensures
            r is Ok <==> self.has_id(handle.id),
            r matches Ok(src) ==> self.spec_source(handle.id) == Some(src@),
            r is Err ==> r == Err::<String, RegistryError>(RegistryError::UnknownShaderHandle)
                && self.spec_source(handle.id) is None,
    {
        let n = self.entries.len();
        let mut i: usize = 0;
        while i < n
            invariant
                self.wf(),
                n == self.entries@.len(),
                i <= n,
                forall|j: int| 0 <= j < i ==> self.entries@[j].id != handle.id,
            decreases n - i,
        {
            if self.entries[i].id == handle.id {
                proof {
                    self.lemma_index_of(handle.id, i as int);
                }
                return Ok(self.entries[i].source.clone());
            }
            i += 1;
        }
        Err(RegistryError::UnknownShaderHandle)
    }
}

/// Character-for-character equality of two string slices.
pub fn str_view_eq(a: &str, b: &str) -> (r: bool)
    ensures
        r == (a@ == b@),
{
    let a_len = a.unicode_len();
    let b_len = b.unicode_len();
    if a_len != b_len {
        assert(a@.len() != b@.len());
        return false;
    }
    let mut i: usize = 0;
    while i < a_len
        invariant
            a_len == a@.len(),
            b_len == b@.len(),
            a_len == b_len,
            i <= a_len,
            forall|j: int| 0 <= j < i ==> a@[j] == b@[j],
        decreases a_len - i,
    {
        if a.get_char(i) != b.get_char(i) {
            return false;
        }
        i += 1;
    }
    proof {
        assert(a@ =~= b@);
    }
    true
}

} // verus!
