use vstd::prelude::*;
use crate::error::StorageError;
use crate::storage::begin_upload;
use crate::naming::address;
use crate::naming::is_extension;
use crate::naming::is_object_id;
use crate::text::same_text;
use crate::transfer::ObjectReader;
use crate::transfer::MAX_RECORDED_SIZE;

verus! {

/// The namespace of the addresses that the in-memory driver generates.
pub const MEMORY_NAMESPACE: &'static str = "memory";

/// One object of the in-memory backend.
#[derive(Debug)]
pub struct MemoryObject {
    location: String,
    data: Vec<u8>,
}

/// The objects of a backend as a map from address to content, built up
/// object by object.
pub open spec fn contents(objects: Seq<(Seq<char>, Seq<u8>)>) -> Map<Seq<char>, Seq<u8>>
    decreases objects.len(),
{
    if objects.len() == 0 {
        Map::empty()
    } else {
        contents(objects.drop_last()).insert(objects.last().0, objects.last().1)
    }
}

/// No two objects share an address.
pub open spec fn distinct(objects: Seq<(Seq<char>, Seq<u8>)>) -> bool {
    forall|i: int, j: int| 0 <= i < j < objects.len() ==> objects[i].0 != objects[j].0
}

proof fn lemma_contents_domain(objects: Seq<(Seq<char>, Seq<u8>)>, location: Seq<char>)
    ensures
        contents(objects).contains_key(location) <==> exists|i: int|
            0 <= i < objects.len() && (#[trigger] objects[i]).0 == location,
    decreases objects.len(),
{
    if objects.len() > 0 {
        let front = objects.drop_last();
        lemma_contents_domain(front, location);
        if contents(front).contains_key(location) {
            let i = choose|i: int| 0 <= i < front.len() && (#[trigger] front[i]).0 == location;
            assert(objects[i].0 == location);
        }
        if objects.last().0 == location {
            assert(objects[objects.len() - 1].0 == location);
        }
        if exists|i: int| 0 <= i < objects.len() && (#[trigger] objects[i]).0 == location {
            let i = choose|i: int| 0 <= i < objects.len() && (#[trigger] objects[i]).0 == location;
            if i < front.len() {
                assert(front[i].0 == location);
            }
        }
    }
}

proof fn lemma_contents_at(objects: Seq<(Seq<char>, Seq<u8>)>, i: int)
    requires
        distinct(objects),
        0 <= i < objects.len(),
    ensures
        contents(objects).contains_key(objects[i].0),
        contents(objects)[objects[i].0] == objects[i].1,
    decreases objects.len(),
{
    if i < objects.len() - 1 {
        lemma_contents_at(objects.drop_last(), i);
    }
}

proof fn lemma_contents_remove(objects: Seq<(Seq<char>, Seq<u8>)>, i: int)
    requires
        distinct(objects),
        0 <= i < objects.len(),
    ensures
        contents(objects.remove(i)) == contents(objects).remove(objects[i].0),
    decreases objects.len(),
{
    let front = objects.drop_last();
    let location = objects[i].0;
    if i == objects.len() - 1 {
        lemma_contents_domain(front, location);
        if contents(front).contains_key(location) {
            let k = choose|k: int| 0 <= k < front.len() && (#[trigger] front[k]).0 == location;
            assert(objects[k].0 != objects[i].0);
        }
        assert(objects.remove(i) =~= front);
        assert(contents(front) =~= contents(objects).remove(location));
    } else {
        lemma_contents_remove(front, i);
        assert(objects.remove(i).drop_last() =~= front.remove(i));
        assert(contents(objects.remove(i)) =~= contents(objects).remove(location));
    }
}

/// A backend driver that keeps its objects in memory.
#[derive(Debug)]
pub struct MemoryStorage {
    objects: Vec<MemoryObject>,
    object_limit: usize,
}

impl View for MemoryStorage {
    type V = Map<Seq<char>, Seq<u8>>;

    /// The content of every object, by address.
    closed spec fn view(&self) -> Map<Seq<char>, Seq<u8>> {
        contents(self.pairs())
    }
}

impl MemoryStorage {
    closed spec fn pairs(&self) -> Seq<(Seq<char>, Seq<u8>)> {
        Seq::new(self.objects@.len(), |i: int| (self.objects@[i].location@, self.objects@[i].data@))
    }

    /// The largest object that the driver stores.
    pub closed spec fn object_limit(&self) -> nat {
        self.object_limit as nat
    }

    #[verifier::type_invariant]
    spec fn sound(&self) -> bool {
        distinct(self.pairs()) && self.object_limit <= MAX_RECORDED_SIZE
    }

    /// An empty backend that stores objects of at most `object_limit` bytes.
    pub fn new(object_limit: usize) -> (storage: MemoryStorage)
        ensures
            storage@ == Map::<Seq<char>, Seq<u8>>::empty(),
            storage.object_limit() == crate::transfer::effective_limit(object_limit as nat),
    {
        let object_limit = if object_limit as u64 <= MAX_RECORDED_SIZE {
            object_limit
        } else {
            MAX_RECORDED_SIZE as usize
        };
        let storage = MemoryStorage { objects: Vec::new(), object_limit };
        storage
    }

    fn position(&self, location: &str) -> (found: Option<usize>)
        ensures
            found matches Some(i) ==> i < self.pairs().len() && self.pairs()[i as int].0
                == location@,
            found is None ==> !self@.contains_key(location@),
    {
        let mut i: usize = 0;
        while i < self.objects.len()
            invariant
                i <= self.objects.len(),
                forall|k: int| 0 <= k < i ==> (#[trigger] self.pairs()[k]).0 != location@,
            decreases self.objects.len() - i,
        {
            if same_text(self.objects[i].location.as_str(), location) {
                return Some(i);
            }
            i += 1;
        }
        proof {
            lemma_contents_domain(self.pairs(), location@);
        }
        None
    }

    /// Whether an object stands at `location`.
    pub fn describe(&self, location: &str) -> (present: bool)
        ensures
            present == self@.contains_key(location@),
    {
        match self.position(location) {
            Some(i) => {
                proof {
                    use_type_invariant(self);
                    lemma_contents_at(self.pairs(), i as int);
                }
                true
            },
            None => false,
        }
    }

    /// Opens the object at `location` for reading from its start, or answers
    /// `NotFound`.
    pub fn open(&self, location: &str) -> (result: Result<ObjectReader, StorageError>)
        ensures
            match result {
                Ok(reader) => {
                    &&& self@.contains_key(location@)
                    &&& reader.content() == self@[location@]
                    &&& reader.position() == 0
                },
                Err(e) => e == StorageError::NotFound && !self@.contains_key(location@),
            },
    {
        match self.position(location) {
            Some(i) => {
                proof {
                    use_type_invariant(self);
                    lemma_contents_at(self.pairs(), i as int);
                }
                let data = self.objects[i].data.clone();
                Ok(ObjectReader::new(data))
            },
            None => Err(StorageError::NotFound),
        }
    }

    /// Deletes the object at `location`. Where there is none, nothing changes
    /// and the answer is `Ok` all the same.
    pub fn delete(&mut self, location: &str) -> (result: Result<(), StorageError>)
        ensures
            result is Ok,
            final(self)@ == old(self)@.remove(location@),
            final(self).object_limit() == old(self).object_limit(),
    {
        proof {
            use_type_invariant(&*self);
        }
        match self.position(location) {
            Some(i) => {
                let ghost before = self.pairs();
                proof {
                    lemma_contents_remove(before, i as int);
                }
                let mut objects = Vec::new();
                std::mem::swap(&mut objects, &mut self.objects);
                objects.remove(i);
                proof {
                    let after = Seq::new(
                        objects@.len(),
                        |k: int| (objects@[k].location@, objects@[k].data@),
                    );
                    assert(after =~= before.remove(i as int));
                }
                self.objects = objects;
                Ok(())
            },
            None => Ok(()),
        }
    }

    /// Stores `payload` at `location`. An address that is taken is never
    /// written over: that, and a payload over the size limit, is a `Transfer`
    /// error that changes nothing.
    pub fn store_at(&mut self, location: String, payload: &[u8]) -> (result: Result<
        i64,
        StorageError,
    >)
        ensures
            final(self).object_limit() == old(self).object_limit(),
            match result {
                Ok(written) => {
                    &&& written == payload@.len()
                    &&& payload@.len() <= old(self).object_limit()
                    &&& !old(self)@.contains_key(location@)
                    &&& final(self)@ == old(self)@.insert(location@, payload@)
                },
                Err(e) => {
                    &&& e == StorageError::Transfer
                    &&& payload@.len() > old(self).object_limit() || old(self)@.contains_key(
                        location@,
                    )
                    &&& final(self)@ == old(self)@
                },
            },
    {
        proof {
            use_type_invariant(&*self);
        }
        if payload.len() > self.object_limit {
            return Err(StorageError::Transfer);
        }
        match self.position(location.as_str()) {
            Some(i) => {
                proof {
                    lemma_contents_at(self.pairs(), i as int);
                }
                Err(StorageError::Transfer)
            },
            None => {
                let ghost before = self.pairs();
                proof {
                    lemma_contents_domain(before, location@);
                }
                let mut data: Vec<u8> = Vec::new();
                data.extend_from_slice(payload);
                proof {
                    assert(data@ =~= payload@);
                }
                let written = payload.len() as i64;
                let mut objects = Vec::new();
                std::mem::swap(&mut objects, &mut self.objects);
                objects.push(MemoryObject { location, data });
                proof {
                    let after = Seq::new(
                        objects@.len(),
                        |k: int| (objects@[k].location@, objects@[k].data@),
                    );
                    assert(after.drop_last() =~= before);
                    assert forall|a: int, b: int| 0 <= a < b < after.len() implies after[a].0
                        != after[b].0 by {
                        if b == after.len() - 1 {
                            assert(before[a].0 != location@);
                        } else {
                            assert(before[a].0 != before[b].0);
                        }
                    }
                }
                self.objects = objects;
                Ok(written)
            },
        }
    }

    /// Stores `payload` under a fresh address and returns the address and the
    /// number of bytes written. The name hint gives the address its
    /// extension and nothing else. The store fails only for a payload over
    /// the size limit or where the address it drew is taken; into an empty
    /// backend a payload within the limit is always stored.
    pub fn store(&mut self, payload: &[u8], name_hint: Option<&str>) -> (result: Result<
        (String, i64),
        StorageError,
    >)
        ensures
            final(self).object_limit() == old(self).object_limit(),
            payload@.len() > old(self).object_limit() ==> result is Err,
            result is Err ==> payload@.len() > old(self).object_limit() || exists|
                id: Seq<char>,
                extension: Option<Seq<char>>,
            |
                {
                    &&& is_object_id(id)
                    &&& extension matches Some(e) ==> is_extension(e)
                    &&& old(self)@.contains_key(
                        #[trigger] address(MEMORY_NAMESPACE@, id, extension),
                    )
                },
            match result {
                Ok((location, written)) => {
                    &&& written == payload@.len()
                    &&& !old(self)@.contains_key(location@)
                    &&& final(self)@ == old(self)@.insert(location@, payload@)
                    &&& exists|id: Seq<char>, extension: Option<Seq<char>>|
                        {
                            &&& is_object_id(id)
                            &&& extension matches Some(e) ==> is_extension(e)
                            &&& location@ == #[trigger] address(MEMORY_NAMESPACE@, id, extension)
                        }
                },
                Err(e) => e == StorageError::Transfer && final(self)@ == old(self)@,
            },
    {
        let plan = begin_upload(MEMORY_NAMESPACE, name_hint, None);
        let location = plan.location.clone();
        proof {
            assert(location@ == address(
                MEMORY_NAMESPACE@,
                plan.object_id@,
                plan.extension.deep_view(),
            ));
        }
        match self.store_at(plan.location, payload) {
            Ok(written) => Ok((location, written)),
            Err(e) => Err(e),
        }
    }
}

} // verus!
