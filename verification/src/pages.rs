use vstd::prelude::*;
use vstd::slice::slice_to_vec;

verus! {

/// The pages of a documentation store, as a map from a page's name (bytes)
/// to its text: each name of `names` stands for the text at the same position.
pub open spec fn pages_map(names: Seq<Seq<u8>>, texts: Seq<Seq<char>>) -> Map<Seq<u8>, Seq<char>> {
    Map::new(|k: Seq<u8>| names.contains(k), |k: Seq<u8>| texts[names.index_of(k)])
}

/// In a sequence without duplicates, the element at position `i` is found at `i`.
proof fn lemma_index_of_distinct<A>(s: Seq<A>, i: int)
    requires
        s.no_duplicates(),
        0 <= i < s.len(),
    ensures
        s.contains(s[i]),
        s.index_of(s[i]) == i,
{
    assert(s.contains(s[i]));
}

/// Compares two byte strings.
pub fn bytes_eq(a: &[u8], b: &[u8]) -> (r: bool)
    ensures
        r == (a@ == b@),
{
    if a.len() != b.len() {
        return false;
    }
    let mut i: usize = 0;
    while i < a.len()
        invariant
            a@.len() == b@.len(),
            i <= a@.len(),
            forall|j: int| 0 <= j < i ==> a@[j] == b@[j],
        decreases a@.len() - i,
    {
        if a[i] != b[i] {
            return false;
        }
        i = i + 1;
    }
    assert(a@ =~= b@);
    true
}

/// A documentation store: a finite map from names (byte strings) to page
/// texts. The names are kept in the order in which they were first added.
pub struct DocPages {
    names: Vec<Vec<u8>>,
    texts: Vec<String>,
}

impl DocPages {
    /// The names of the pages, in the order in which they are kept.
    pub closed spec fn names(&self) -> Seq<Seq<u8>> {
        self.names@.map_values(|k: Vec<u8>| k@)
    }

    /// The texts of the pages, position by position with `names`.
    pub closed spec fn texts(&self) -> Seq<Seq<char>> {
        self.texts@.map_values(|t: String| t@)
    }

    /// Well-formedness: one text per name, and no name twice.
    pub closed spec fn wf(&self) -> bool {
        &&& self.names@.len() == self.texts@.len()
        &&& self.names().no_duplicates()
    }

    /// The store as a map from names to texts.
    pub open spec fn pages(&self) -> Map<Seq<u8>, Seq<char>> {
        pages_map(self.names(), self.texts())
    }

    /// An empty store.
    pub fn new() -> (r: Self)
        ensures
            r.wf(),
            r.pages() == Map::<Seq<u8>, Seq<char>>::empty(),
            r.names() == Seq::<Seq<u8>>::empty(),
    {
        let r = DocPages { names: Vec::new(), texts: Vec::new() };
        assert(r.names() =~= Seq::<Seq<u8>>::empty());
        assert(r.pages() =~= Map::<Seq<u8>, Seq<char>>::empty());
        r
    }

    /// The number of pages.
    pub fn len(&self) -> (r: usize)
        requires
            self.wf(),
        ensures
            r == self.names().len(),
    {
        self.names.len()
    }

    /// The position of `name` among the names, if it is there.
    fn find(&self, name: &[u8]) -> (r: Option<usize>)
        requires
            self.wf(),
        ensures
            match r {
                Some(i) => i < self.names().len() && self.names()[i as int] == name@,
                None => !self.names().contains(name@),
            },
    {
        let mut i: usize = 0;
        while i < self.names.len()
            invariant
                self.wf(),
                i <= self.names@.len(),
                forall|j: int| 0 <= j < i ==> self.names()[j] != name@,
            decreases self.names@.len() - i,
        {
            if bytes_eq(self.names[i].as_slice(), name) {
                return Some(i);
            }
            i = i + 1;
        }
        None
    }

    /// The name kept at position `i`.
    pub fn name_at(&self, i: usize) -> (r: &Vec<u8>)
        requires
            self.wf(),
            i < self.names().len(),
        ensures
            r@ == self.names()[i as int],
    {
        &self.names[i]
    }

    /// A copy of the store, with the same names in the same order and the
    /// same texts.
    pub fn snapshot(&self) -> (r: DocPages)
        requires
            self.wf(),
        ensures
            r.wf(),
            r.names() == self.names(),
            r.texts() == self.texts(),
            r.pages() == self.pages(),
    {
        let mut names: Vec<Vec<u8>> = Vec::new();
        let mut texts: Vec<String> = Vec::new();
        let mut i: usize = 0;
        while i < self.names.len()
            invariant
                self.wf(),
                i <= self.names@.len(),
                names@.len() == i,
                texts@.len() == i,
                forall|j: int| 0 <= j < i ==> #[trigger] names@[j]@ == self.names()[j],
                forall|j: int| 0 <= j < i ==> #[trigger] texts@[j]@ == self.texts()[j],
            decreases self.names@.len() - i,
        {
            names.push(slice_to_vec(self.names[i].as_slice()));
            texts.push(self.texts[i].clone());
            i = i + 1;
        }
        let r = DocPages { names, texts };
        assert(r.names() =~= self.names());
        assert(r.texts() =~= self.texts());
        r
    }

    /// The text of the page `name`, if there is one.
    pub fn get(&self, name: &[u8]) -> (r: Option<&String>)
        requires
            self.wf(),
        ensures
            r is Some <==> self.pages().contains_key(name@),
            r matches Some(t) ==> t@ == self.pages()[name@],
    {
        match self.find(name) {
            Some(i) => {
                proof {
                    lemma_index_of_distinct(self.names(), i as int);
                }
                Some(&self.texts[i])
            },
            None => None,
        }
    }

    /// Sets the text of the page `name` to `text`: the text of an existing
    /// page is replaced in place, a new page goes after all others.
    pub fn insert(&mut self, name: &[u8], text: String)
        requires
            old(self).wf(),
        ensures
            final(self).wf(),
            final(self).pages() == old(self).pages().insert(name@, text@),
            old(self).names().contains(name@) ==> final(self).names() == old(self).names(),
            !old(self).names().contains(name@) ==> final(self).names() == old(self).names().push(
                name@,
            ),
    {
        match self.find(name) {
            Some(i) => {
                let ghost old_names = self.names();
                let ghost old_texts = self.texts();
                self.texts.set(i, text);
                assert(self.names() == old_names);
                assert(self.texts() =~= old_texts.update(i as int, text@));
                assert(self.pages() =~= old(self).pages().insert(name@, text@)) by {
                    assert forall|k: Seq<u8>| #[trigger] self.names().contains(k) implies self.texts()[self.names().index_of(k)]
                        == old(self).pages().insert(name@, text@)[k] by {
                        let j = choose|j: int| 0 <= j < old_names.len() && old_names[j] == k;
                        lemma_index_of_distinct(old_names, j);
                    }
                }
            },
            None => {
                let ghost old_names = self.names();
                let ghost old_texts = self.texts();
                self.names.push(slice_to_vec(name));
                self.texts.push(text);
                assert(self.names() =~= old_names.push(name@));
                assert(self.texts() =~= old_texts.push(text@));
                assert(self.names().no_duplicates());
                assert(self.pages() =~= old(self).pages().insert(name@, text@)) by {
                    assert forall|k: Seq<u8>| #[trigger] self.names().contains(k) implies self.texts()[self.names().index_of(k)]
                        == old(self).pages().insert(name@, text@)[k] by {
                        let j = choose|j: int| 0 <= j < self.names().len() && self.names()[j] == k;
                        lemma_index_of_distinct(self.names(), j);
                        if j < old_names.len() {
                            lemma_index_of_distinct(old_names, j);
                        }
                    }
                    assert forall|k: Seq<u8>| #[trigger] old(self).pages().insert(name@, text@).contains_key(k)
                        implies self.names().contains(k) by {
                        if k != name@ {
                            let j = choose|j: int| 0 <= j < old_names.len() && old_names[j] == k;
                            assert(self.names()[j] == k);
                        } else {
                            assert(self.names()[old_names.len() as int] == k);
                        }
                    }
                }
            },
        }
    }

    /// Takes the page `name` out of the store, and gives back its text.
    pub fn remove(&mut self, name: &[u8]) -> (r: Option<String>)
        requires
            old(self).wf(),
        ensures
            final(self).wf(),
            final(self).pages() == old(self).pages().remove(name@),
            r is Some <==> old(self).pages().contains_key(name@),
            r matches Some(t) ==> t@ == old(self).pages()[name@],
            old(self).names().contains(name@) ==> final(self).names() == old(self).names().remove(
                old(self).names().index_of(name@),
            ),
            !old(self).names().contains(name@) ==> final(self).names() == old(self).names(),
    {
        match self.find(name) {
            Some(i) => {
                let ghost old_names = self.names();
                let ghost old_texts = self.texts();
                proof {
                    lemma_index_of_distinct(old_names, i as int);
                }
                self.names.remove(i);
                let t = self.texts.remove(i);
                assert(self.names() =~= old_names.remove(i as int));
                assert(self.texts() =~= old_texts.remove(i as int));
                assert(self.names().no_duplicates()) by {
                    assert forall|a: int, b: int|
                        0 <= a < self.names().len() && 0 <= b < self.names().len() && a != b
                        implies self.names()[a] != self.names()[b] by {
                        let oa = if a < i { a } else { a + 1 };
                        let ob = if b < i { b } else { b + 1 };
                        assert(self.names()[a] == old_names[oa]);
                        assert(self.names()[b] == old_names[ob]);
                    }
                }
                assert(self.pages() =~= old(self).pages().remove(name@)) by {
                    assert forall|k: Seq<u8>| #[trigger] self.names().contains(k) implies self.texts()[self.names().index_of(k)]
                        == old(self).pages()[k] && k != name@ by {
                        let j = choose|j: int| 0 <= j < self.names().len() && self.names()[j] == k;
                        lemma_index_of_distinct(self.names(), j);
                        let oj = if j < i { j } else { j + 1 };
                        assert(old_names[oj] == k);
                        lemma_index_of_distinct(old_names, oj);
                    }
                    assert forall|k: Seq<u8>| #[trigger] old(self).pages().remove(name@).contains_key(k)
                        implies self.names().contains(k) by {
                        let j = choose|j: int| 0 <= j < old_names.len() && old_names[j] == k;
                        assert(j != i);
                        let nj = if j < i { j } else { j - 1 };
                        assert(self.names()[nj] == k);
                    }
                }
                Some(t)
            },
            None => {
                assert(old(self).pages().remove(name@) =~= old(self).pages());
                None
            },
        }
    }
}

} // verus!

verus! {

impl DocPages {
    /// A store holds each name once, and its names are exactly the names
    /// that have a page.
    pub proof fn lemma_names_are_the_pages(&self)
        requires
            self.wf(),
        ensures
            self.names().no_duplicates(),
            forall|k: Seq<u8>| #[trigger] self.pages().contains_key(k) <==> self.names().contains(k),
            forall|i: int|
                0 <= i < self.names().len() ==> #[trigger] self.pages()[self.names()[i]]
                    == self.texts()[i],
            self.names().len() == self.texts().len(),
    {
        assert forall|i: int| 0 <= i < self.names().len() implies #[trigger] self.pages()[self.names()[i]]
            == self.texts()[i] by {
            lemma_index_of_distinct(self.names(), i);
        }
    }
}

} // verus!
