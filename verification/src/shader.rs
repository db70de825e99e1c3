//! Shader program bookkeeping: build outcomes and the uniform-location
//! cache.
//!
//! A shader program is compiled from two stage sources and linked once;
//! after a successful link it is immutable, so uniform locations resolved
//! from it stay valid forever. The library therefore caches locations by
//! name with a pure insert-if-absent rule: a name is resolved at most once,
//! a cached name is answered from the cache, and entries are never removed.
//! Compiling, linking and resolving are device work; the library judges
//! their reported outcomes and owns the cache.

use vstd::prelude::*;
use vstd::string::StringExecFns;
use crate::errors::{ShaderStage, TemplateError};

verus! {

/// One cached association from a uniform name to its resolved location.
pub struct UniformEntry {
    /// The uniform's name, as the shader program declares it.
    pub name: String,
    /// The location the device resolved for the name.
    pub location: u32,
}

/// No two entries share a name.
pub open spec fn names_distinct(entries: Seq<UniformEntry>) -> bool {
    forall|i: int, j: int| 0 <= i < j < entries.len() ==> entries[i].name@ != entries[j].name@
}

/// The mapping from names to locations that a run of cache entries holds.
pub open spec fn entries_map(entries: Seq<UniformEntry>) -> Map<Seq<char>, u32>
    decreases entries.len(),
{
    if entries.len() == 0 {
        Map::empty()
    } else {
        entries_map(entries.drop_last()).insert(entries.last().name@, entries.last().location)
    }
}

/// A key is in the mapping exactly when some entry carries it.
proof fn lemma_entries_map_dom(entries: Seq<UniformEntry>, key: Seq<char>)
    ensures
        entries_map(entries).contains_key(key) <==> (exists|i: int|
            0 <= i < entries.len() && entries[i].name@ == key),
    decreases entries.len(),
{
    if entries.len() > 0 {
        let prefix = entries.drop_last();
        lemma_entries_map_dom(prefix, key);
        if entries_map(entries).contains_key(key) {
            if key == entries.last().name@ {
                assert(entries[entries.len() - 1].name@ == key);
            } else {
                let i = choose|i: int| 0 <= i < prefix.len() && prefix[i].name@ == key;
                assert(entries[i].name@ == key);
            }
        }
        if exists|i: int| 0 <= i < entries.len() && entries[i].name@ == key {
            let i = choose|i: int| 0 <= i < entries.len() && entries[i].name@ == key;
            if i < entries.len() - 1 {
                assert(prefix[i].name@ == key);
            }
        }
    }
}

/// With distinct names, each entry's name maps to that entry's location.
proof fn lemma_entries_map_value(entries: Seq<UniformEntry>, i: int)
    requires
        names_distinct(entries),
        0 <= i < entries.len(),
    ensures
        entries_map(entries).contains_key(entries[i].name@),
        entries_map(entries)[entries[i].name@] == entries[i].location,
    decreases entries.len(),
{
    let prefix = entries.drop_last();
    if i < entries.len() - 1 {
        assert(names_distinct(prefix));
        lemma_entries_map_value(prefix, i);
        assert(entries.last().name@ != entries[i].name@);
    }
}

/// With distinct names, the mapping is finite and has one pair per entry.
proof fn lemma_entries_map_len(entries: Seq<UniformEntry>)
    requires
        names_distinct(entries),
    ensures
        entries_map(entries).dom().finite(),
        entries_map(entries).len() == entries.len(),
    decreases entries.len(),
{
    broadcast use vstd::set::group_set_axioms;
    broadcast use vstd::map::group_map_axioms;

    if entries.len() > 0 {
        let prefix = entries.drop_last();
        assert(names_distinct(prefix));
        lemma_entries_map_len(prefix);
        lemma_entries_map_dom(prefix, entries.last().name@);
        assert(!entries_map(prefix).contains_key(entries.last().name@));
    }
}

/// The cache after looking a name up with `resolved` as the device's
/// answer for a miss: a hit leaves the cache as it is, a miss appends the
/// one new pair. Entries are never removed or overwritten.
pub open spec fn cache_after(
    cache: Map<Seq<char>, u32>,
    name: Seq<char>,
    resolved: u32,
) -> Map<Seq<char>, u32> {
    if cache.contains_key(name) {
        cache
    } else {
        cache.insert(name, resolved)
    }
}

/// The location such a lookup returns: the cached one on a hit, the
/// device's answer on a miss.
pub open spec fn cache_result(cache: Map<Seq<char>, u32>, name: Seq<char>, resolved: u32) -> u32 {
    if cache.contains_key(name) {
        cache[name]
    } else {
        resolved
    }
}

/// A linked shader program with its uniform-location cache.
///
/// The cache, read through the view `@`, is a mapping from uniform names
/// to locations; it starts empty and only ever grows by the
/// insert-if-absent rule of [`Shader::get_uniform_location`].
pub struct Shader {
    program: u32,
    uniforms: Vec<UniformEntry>,
}

impl View for Shader {
    type V = Map<Seq<char>, u32>;

    closed spec fn view(&self) -> Map<Seq<char>, u32> {
        entries_map(self.uniforms@)
    }
}

impl Shader {
    #[verifier::type_invariant]
    spec fn wf(self) -> bool {
        names_distinct(self.uniforms@)
    }

    /// The handle of the linked program object this shader owns.
    pub closed spec fn spec_program(self) -> u32 {
        self.program
    }

    /// Record a successfully linked program; the uniform cache starts
    /// empty and is populated lazily, one name at a time.
    pub fn new(program: u32) -> (shader: Shader)
        ensures
            shader.spec_program() == program,
            shader@ == Map::<Seq<char>, u32>::empty(),
    {
        Shader { program, uniforms: Vec::new() }
    }

    /// The handle of the linked program object, for bind and draw calls.
    pub fn program(&self) -> (r: u32)
        ensures
            r == self.spec_program(),
    {
        self.program
    }

    /// Answer a uniform name from the cache alone: the cached location if
    /// the name was ever resolved, `None` if it was not. Never touches the
    /// device.
    pub fn cached_location(&self, name: &str) -> (r: Option<u32>)
        ensures
            self@.contains_key(name@) ==> r == Some(self@[name@]),
            !self@.contains_key(name@) ==> r is None,
    {
        proof {
            use_type_invariant(&*self);
        }
        let key = String::from_str(name);
        let n: usize = self.uniforms.len();
        let mut i: usize = 0;
        while i < n
            invariant
                n == self.uniforms.len(),
                i <= n,
                key@ == name@,
                names_distinct(self.uniforms@),
                forall|k: int| 0 <= k < i ==> self.uniforms@[k].name@ != name@,
            decreases n - i,
        {
            if self.uniforms[i].name == key {
                proof {
                    lemma_entries_map_value(self.uniforms@, i as int);
                }
                return Some(self.uniforms[i].location);
            }
            i += 1;
        }
        proof {
            lemma_entries_map_dom(self.uniforms@, name@);
        }
        None
    }

    /// Resolve a uniform name through the cache: on a hit the cached
    /// location is returned and the cache is untouched — in particular the
    /// device's answer `resolved` is discarded, so a name is never
    /// re-resolved; on a miss the pair is cached and `resolved` returned.
    ///
    /// `resolved` is the location the device reports for `name` on this
    /// program; it is only needed, and only used, when the name is not yet
    /// cached.
    pub fn get_uniform_location(&mut self, name: &str, resolved: u32) -> (location: u32)
        ensures
            final(self)@ == cache_after(old(self)@, name@, resolved),
            location == cache_result(old(self)@, name@, resolved),
            final(self).spec_program() == old(self).spec_program(),
    {
        proof {
            use_type_invariant(&*self);
        }
        match self.cached_location(name) {
            Some(location) => location,
            None => {
                let ghost before = self.uniforms@;
                proof {
                    lemma_entries_map_dom(before, name@);
                }
                let entry = UniformEntry { name: String::from_str(name), location: resolved };
                let mut entries: Vec<UniformEntry> = Vec::new();
                core::mem::swap(&mut entries, &mut self.uniforms);
                entries.push(entry);
                proof {
                    assert(entries@.drop_last() =~= before);
                }
                self.uniforms = entries;
                resolved
            },
        }
    }

    /// The number of cached pairs. Every shader's cache is finite, so the
    /// count is an exact observable of the cache's growth.
    pub fn cached_count(&self) -> (count: usize)
        ensures
            self@.dom().finite(),
            count == self@.len(),
    {
        proof {
            use_type_invariant(&*self);
            lemma_entries_map_len(self.uniforms@);
        }
        self.uniforms.len()
    }
}

/// A name is resolved at most once: after any lookup, a second lookup of
/// the same name — whatever the device would now answer — returns the same
/// location and leaves the cache exactly as the first lookup left it.
pub proof fn lemma_lookup_resolves_once(
    cache: Map<Seq<char>, u32>,
    name: Seq<char>,
    first: u32,
    second: u32,
)
    ensures
        cache_after(cache_after(cache, name, first), name, second) == cache_after(
            cache,
            name,
            first,
        ),
        cache_result(cache_after(cache, name, first), name, second) == cache_result(
            cache,
            name,
            first,
        ),
{
    broadcast use vstd::map::group_map_axioms;

}

/// Looking up a name not yet cached adds exactly one entry: the new pair
/// is present afterwards, every previously cached pair is unchanged, and
/// the cache has grown by one.
pub proof fn lemma_new_name_adds_one_entry(
    cache: Map<Seq<char>, u32>,
    name: Seq<char>,
    resolved: u32,
)
    requires
        !cache.contains_key(name),
        cache.dom().finite(),
    ensures
        cache_after(cache, name, resolved).contains_key(name),
        cache_after(cache, name, resolved)[name] == resolved,
        cache_after(cache, name, resolved).len() == cache.len() + 1,
        forall|other: Seq<char>| #[trigger]
            cache.contains_key(other) ==> cache_after(cache, name, resolved).contains_key(other)
                && cache_after(cache, name, resolved)[other] == cache[other],
{
    broadcast use vstd::set::group_set_axioms;
    broadcast use vstd::map::group_map_axioms;

}

/// Judge one stage's reported compilation outcome: success is success, and
/// a failure surfaces the backend's diagnostic text unmodified, tagged
/// with the stage it came from.
pub fn compile_outcome(stage: ShaderStage, status: bool, log: String) -> (r: Result<
    (),
    TemplateError,
>)
    ensures
        status <==> r is Ok,
        !status ==> (r matches Err(TemplateError::ShaderCompile { stage: s, log: l }) && s == stage
            && l@ == log@),
{
    if status {
        Ok(())
    } else {
        Err(TemplateError::ShaderCompile { stage, log })
    }
}

/// Judge the reported link outcome: success is success, and a failure
/// surfaces the backend's diagnostic text unmodified.
pub fn link_outcome(status: bool, log: String) -> (r: Result<(), TemplateError>)
    ensures
        status <==> r is Ok,
        !status ==> (r matches Err(TemplateError::ShaderLink { log: l }) && l@ == log@),
{
    if status {
        Ok(())
    } else {
        Err(TemplateError::ShaderLink { log })
    }
}

} // verus!
