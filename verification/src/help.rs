use vstd::prelude::*;
use vstd::slice::slice_to_vec;
use vstd::utf8::{encode_scalar, encode_utf8};

use crate::pages::DocPages;

verus! {

/// Appends the UTF-8 encoding of `ch` to the bytes, as `bstr`'s
/// `ByteVec::push_char` does: one byte for a character below 0x80, two below
/// 0x800, three below 0x10000, four above.
pub fn push_char(bytes: &mut Vec<u8>, ch: char)
    ensures
        final(bytes)@ == old(bytes)@ + encode_utf8(seq![ch]),
{
    let c: u32 = ch as u32;
    proof {
        let s = seq![ch];
        assert(s.drop_first() =~= Seq::<char>::empty());
        assert(encode_utf8(s.drop_first()) =~= Seq::<u8>::empty());
        assert(encode_utf8(s) =~= encode_scalar(c));
    }
    let ghost before = bytes@;
    if c <= 0x7F {
        bytes.push((c & 0x7F) as u8);
        assert(bytes@ =~= before + encode_scalar(c));
    } else if c <= 0x7FF {
        bytes.push(0xC0 | ((c >> 6) & 0x1F) as u8);
        bytes.push(0x80 | (c & 0x3F) as u8);
        assert(bytes@ =~= before + encode_scalar(c));
    } else if c <= 0xFFFF {
        bytes.push(0xE0 | ((c >> 12) & 0x0F) as u8);
        bytes.push(0x80 | ((c >> 6) & 0x3F) as u8);
        bytes.push(0x80 | (c & 0x3F) as u8);
        assert(bytes@ =~= before + encode_scalar(c));
    } else {
        bytes.push(0xF0 | ((c >> 18) & 0x7) as u8);
        bytes.push(0x80 | ((c >> 12) & 0x3F) as u8);
        bytes.push(0x80 | ((c >> 6) & 0x3F) as u8);
        bytes.push(0x80 | (c & 0x3F) as u8);
        assert(bytes@ =~= before + encode_scalar(c));
    }
}

/// The index of a documentation store: every name followed by a newline,
/// in the order given.
pub open spec fn index_listing(names: Seq<Seq<u8>>) -> Seq<u8>
    decreases names.len(),
{
    if names.len() == 0 {
        Seq::empty()
    } else {
        index_listing(names.drop_last()) + names.last() + encode_utf8(seq!['\n'])
    }
}

/// The answer to a lookup of a name that has no page.
pub open spec fn not_found_text() -> Seq<char> {
    "The given key is not found. Use `.help()` to list available pages."@
}

/// The answer of `help(key)`: the page of `key` when there is one, a notice
/// when there is none; with no key, the type's own documentation followed by
/// the index of all pages.
pub open spec fn help_text(
    pages: Map<Seq<u8>, Seq<char>>,
    names: Seq<Seq<u8>>,
    type_doc: Seq<char>,
    key: Option<Seq<u8>>,
) -> Seq<u8> {
    match key {
        Some(k) => if pages.contains_key(k) {
            encode_utf8(pages[k])
        } else {
            encode_utf8(not_found_text())
        },
        None => encode_utf8(type_doc + "\n"@ + "Available pages:\n"@) + index_listing(names),
    }
}

/// What a `help` function of a user data type answers: a frozen copy of its
/// documentation pages and of the documentation of the type itself.
pub struct HelpPages {
    pages: DocPages,
    type_doc: String,
}

impl HelpPages {
    pub closed spec fn wf(&self) -> bool {
        self.pages.wf()
    }

    /// The pages, as a map from names to texts.
    pub closed spec fn pages(&self) -> Map<Seq<u8>, Seq<char>> {
        self.pages.pages()
    }

    /// The names of the pages, in the order in which the index lists them.
    pub closed spec fn names(&self) -> Seq<Seq<u8>> {
        self.pages.names()
    }

    /// The documentation of the type itself.
    pub closed spec fn type_doc(&self) -> Seq<char> {
        self.type_doc@
    }

    /// Help pages made of `pages` and the type's documentation `type_doc`.
    pub fn new(pages: DocPages, type_doc: String) -> (r: Self)
        requires
            pages.wf(),
        ensures
            r.wf(),
            r.pages() == pages.pages(),
            r.names() == pages.names(),
            r.type_doc() == type_doc@,
    {
        HelpPages { pages, type_doc }
    }

    /// The bytes that `help(key)` answers.
    pub fn page(&self, key: Option<&[u8]>) -> (r: Vec<u8>)
        requires
            self.wf(),
        ensures
            r@ == help_text(
                self.pages(),
                self.names(),
                self.type_doc(),
                match key {
                    Some(k) => Some(k@),
                    None => None,
                },
            ),
    {
        match key {
            Some(k) => match self.pages.get(k) {
                Some(t) => slice_to_vec(t.as_str().as_bytes()),
                None => slice_to_vec(
                    "The given key is not found. Use `.help()` to list available pages.".as_bytes(),
                ),
            },
            None => {
                let mut head = self.type_doc.clone();
                head.append("\n");
                head.append("Available pages:\n");
                let mut out = slice_to_vec(head.as_str().as_bytes());
                let ghost head_bytes = out@;
                let n = self.pages.len();
                let mut i: usize = 0;
                while i < n
                    invariant
                        self.wf(),
                        n == self.names().len(),
                        i <= n,
                        out@ == head_bytes + index_listing(self.names().take(i as int)),
                    decreases n - i,
                {
                    let mut name = slice_to_vec(self.pages.name_at(i).as_slice());
                    out.append(&mut name);
                    push_char(&mut out, '\n');
                    assert(self.names().take(i + 1).drop_last() =~= self.names().take(i as int));
                    i = i + 1;
                }
                assert(self.names().take(n as int) =~= self.names());
                out
            },
        }
    }
}

} // verus!

verus! {

impl HelpPages {
    /// The index that `help()` answers names every page once, and names
    /// nothing that has no page.
    pub proof fn lemma_index_lists_each_page_once(&self)
        requires
            self.wf(),
        ensures
            self.names().no_duplicates(),
            forall|k: Seq<u8>| #[trigger] self.pages().contains_key(k) <==> self.names().contains(k),
    {
        self.pages.lemma_names_are_the_pages();
    }
}

/// A newline is one byte, 10, in UTF-8.
pub proof fn lemma_newline_is_one_byte()
    ensures
        encode_utf8(seq!['\n']) == seq![10u8],
{
    let s = seq!['\n'];
    assert(s.drop_first() =~= Seq::<char>::empty());
    assert(encode_utf8(s.drop_first()) =~= Seq::<u8>::empty());
    assert(('\n' as u32) == 10u32);
    assert((10u32 & 0x7Fu32) as u8 == 10u8) by (bit_vector);
    assert(encode_utf8(s) =~= seq![10u8]);
}

} // verus!
