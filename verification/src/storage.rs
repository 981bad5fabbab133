//! The function storage: the sources of the functions by their names.
use crate::name_map::NameMap;
use crate::storage_error::Error;
use vstd::prelude::*;
use vstd::string::*;

verus! {

/// The sources after an attempt to create `name` with `contents`: a new
/// function is taken in, and one that is there keeps its source.
pub open spec fn after_create(
    sources: Map<Seq<char>, Seq<char>>,
    name: Seq<char>,
    contents: Seq<char>,
) -> Map<Seq<char>, Seq<char>> {
    if sources.contains_key(name) {
        sources
    } else {
        sources.insert(name, contents)
    }
}

/// The source of `name`, if the storage holds the function.
pub open spec fn source_of(sources: Map<Seq<char>, Seq<char>>, name: Seq<char>) -> Option<
    Seq<char>,
> {
    if sources.contains_key(name) {
        Some(sources[name])
    } else {
        None
    }
}

/// The sources of the functions.
pub struct FunctionStorage {
    sources: NameMap<String>,
}

impl View for FunctionStorage {
    type V = Map<Seq<char>, Seq<char>>;

    /// The source of each function that the storage holds.
    closed spec fn view(&self) -> Map<Seq<char>, Seq<char>> {
        self.sources@.map_values(|source: String| source@)
    }
}

impl FunctionStorage {
    /// Every storage that this module hands out is well formed.
    pub closed spec fn wf(&self) -> bool {
        self.sources.wf()
    }

    /// The names in the order in which `list_functions` gives them.
    pub closed spec fn names(&self) -> Seq<Seq<char>> {
        self.sources.keys()
    }

    /// A storage without functions: it holds no source, and its list of
    /// names is empty.
    pub fn new() -> (res: FunctionStorage)
        ensures
            res.wf(),
            res@ == Map::<Seq<char>, Seq<char>>::empty(),
            res.names() == Seq::<Seq<char>>::empty(),
    {
        let res = FunctionStorage { sources: NameMap::new() };
        assert(res@ =~= Map::<Seq<char>, Seq<char>>::empty());
        res
    }

    /// Takes in the source of a new function. A function that is there
    /// already keeps its source, and the call fails.
    pub fn create_function(&mut self, name: &str, contents: String) -> (res: Result<(), Error>)
        requires
            old(self).wf(),
        ensures
            final(self).wf(),
            final(self)@ == after_create(old(self)@, name@, contents@),
            match res {
                Ok(_) => !old(self)@.contains_key(name@),
                Err(Error::FileConflict(which)) => old(self)@.contains_key(name@) && which@
                    == name@,
                Err(_) => false,
            },
    {
        if self.sources.contains(name) {
            Err(Error::FileConflict(String::from_str(name)))
        } else {
            self.sources.insert(String::from_str(name), contents);
            assert(self@ =~= old(self)@.insert(name@, contents@));
            Ok(())
        }
    }

    /// The source of the function `name`.
    pub fn get_function(&self, name: &str) -> (res: Result<String, Error>)
        requires
            self.wf(),
        ensures
            match res {
                Ok(contents) => source_of(self@, name@) == Some(contents@),
                Err(Error::FileNotFound(which)) => source_of(self@, name@) is None && which@
                    == name@,
                Err(_) => false,
            },
    {
        match self.sources.get(name) {
            Some(contents) => Ok(contents.clone()),
            None => Err(Error::FileNotFound(String::from_str(name))),
        }
    }

    /// Takes the function `name` out of the storage.
    pub fn delete_function(&mut self, name: &str) -> (res: Result<(), Error>)
        requires
            old(self).wf(),
        ensures
            final(self).wf(),
            final(self)@ == old(self)@.remove(name@),
            match res {
                Ok(_) => old(self)@.contains_key(name@),
                Err(Error::FileNotFound(which)) => !old(self)@.contains_key(name@) && which@
                    == name@,
                Err(_) => false,
            },
    {
        let removed = self.sources.remove(name);
        assert(self@ =~= old(self)@.remove(name@));
        match removed {
            Some(_) => Ok(()),
            None => Err(Error::FileNotFound(String::from_str(name))),
        }
    }

    /// The names of all functions, each once.
    pub fn list_functions(&self) -> (res: Vec<String>)
        requires
            self.wf(),
        ensures
            crate::names::texts(res@) == self.names(),
            self.names().no_duplicates(),
            forall|name: Seq<char>| self.names().contains(name) <==> self@.contains_key(name),
    {
        let n = self.sources.size();
        let ghost keys = self.sources.keys();
        let mut names: Vec<String> = Vec::new();
        let mut i: usize = 0;
        while i < n
            invariant
                self.wf(),
                i <= n,
                n == keys.len(),
                keys == self.sources.keys(),
                names.len() == i,
                crate::names::texts(names@) == keys.subrange(0, i as int),
            decreases n - i,
        {
            let name = self.sources.key_at(i).clone();
            let ghost earlier = names@;
            names.push(name);
            proof {
                assert forall|j: int| 0 <= j < i + 1 implies crate::names::texts(names@)[j]
                    == keys[j] by {
                    if j < i {
                        assert(names@[j] == earlier[j]);
                        assert(crate::names::texts(earlier)[j] == keys.subrange(0, i as int)[j]);
                    }
                }
                assert(crate::names::texts(names@) =~= keys.subrange(0, i + 1));
            }
            i += 1;
        }
        proof {
            assert(keys.subrange(0, n as int) =~= keys);
            assert forall|name: Seq<char>| self.names().contains(name) <==> self@.contains_key(
                name,
            ) by {
                assert(keys.contains(name) <==> self.sources@.contains_key(name));
            }
        }
        names
    }
}

/// What is created can be got: after a function has been created with a
/// source, the storage gives that source for it, character by character. A
/// second creation changes nothing, and no creation touches another
/// function.
pub proof fn lemma_create_then_get(
    sources: Map<Seq<char>, Seq<char>>,
    name: Seq<char>,
    contents: Seq<char>,
    other: Seq<char>,
)
    ensures
        !sources.contains_key(name) ==> source_of(after_create(sources, name, contents), name)
            == Some(contents),
        sources.contains_key(name) ==> after_create(sources, name, contents) == sources,
        other != name ==> source_of(after_create(sources, name, contents), other) == source_of(
            sources,
            other,
        ),
{
}

} // verus!
