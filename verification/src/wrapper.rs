use vstd::prelude::*;

use vstd::utf8::encode_utf8;

use crate::help::HelpPages;
use crate::pages::DocPages;

verus! {

/// The text of an optional piece of documentation: empty when there is none.
pub open spec fn text_or_empty(t: Option<Seq<char>>) -> Seq<char> {
    match t {
        Some(s) => s,
        None => Seq::empty(),
    }
}

/// The page recorded for a method or function: its signature, when one
/// could be generated, then the documentation given for it.
pub open spec fn method_page(signature: Option<Seq<char>>, pending: Option<Seq<char>>) -> Seq<char> {
    let generated = match signature {
        Some(v) => "Signature: "@ + v,
        None => Seq::empty(),
    };
    generated + "\n\ndocs:\n"@ + text_or_empty(pending)
}

/// The page recorded for a field: the page it had already (a getter and a
/// setter share one page), else a header made of the field's type, followed
/// by the documentation given for it.
pub open spec fn field_page(
    existing: Option<Seq<char>>,
    field_type: Seq<char>,
    pending: Option<Seq<char>>,
) -> Seq<char> {
    let start = match existing {
        Some(s) => s,
        None => field_type + "\n\n docs:\n"@,
    };
    start + text_or_empty(pending)
}

/// The pending documentation after `document(text)`: the texts given since
/// the last registration, one per line.
pub open spec fn pending_after(pending: Option<Seq<char>>, text: Seq<char>) -> Option<Seq<char>> {
    match pending {
        Some(p) => Some(p + "\n"@ + text),
        None => Some(text),
    }
}

/// The names of a store after `insert(name, ..)`.
pub open spec fn names_after_insert(names: Seq<Seq<u8>>, name: Seq<u8>) -> Seq<Seq<u8>> {
    if names.contains(name) {
        names
    } else {
        names.push(name)
    }
}

/// Records the documentation of the methods and fields of a user data type
/// while they are registered with the container `C`.
///
/// Documentation given with `document` waits until the next method or field
/// is registered, and then becomes part of that name's page.
pub struct UserDataWrapper<C> {
    cont: C,
    documentation: DocPages,
    type_doc: String,
    next_docs: Option<String>,
}

impl<C> UserDataWrapper<C> {
    pub closed spec fn wf(&self) -> bool {
        self.documentation.wf()
    }

    /// The container that methods and fields are registered with.
    pub closed spec fn container(&self) -> C {
        self.cont
    }

    /// The pages recorded so far, as a map from names to texts.
    pub closed spec fn pages(&self) -> Map<Seq<u8>, Seq<char>> {
        self.documentation.pages()
    }

    /// The names of the recorded pages, in the order in which they are kept.
    pub closed spec fn page_names(&self) -> Seq<Seq<u8>> {
        self.documentation.names()
    }

    /// The documentation of the type itself.
    pub closed spec fn type_doc(&self) -> Seq<char> {
        self.type_doc@
    }

    /// The documentation given since the last registration, if any.
    pub closed spec fn pending(&self) -> Option<Seq<char>> {
        match self.next_docs {
            Some(s) => Some(s@),
            None => None,
        }
    }

    /// Wraps the container with which the methods of a user data type are
    /// registered; nothing is documented yet.
    pub fn from_user_data_methods(cont: C) -> (r: Self)
        ensures
            r.wf(),
            r.container() == cont,
            r.pages() == Map::<Seq<u8>, Seq<char>>::empty(),
            r.page_names() == Seq::<Seq<u8>>::empty(),
            r.type_doc() == Seq::<char>::empty(),
            r.pending() == None::<Seq<char>>,
    {
        UserDataWrapper {
            cont,
            documentation: DocPages::new(),
            type_doc: String::new(),
            next_docs: None,
        }
    }

    /// Wraps the container with which the fields of a user data type are
    /// registered; nothing is documented yet.
    pub fn from_user_data_fields(cont: C) -> (r: Self)
        ensures
            r.wf(),
            r.container() == cont,
            r.pages() == Map::<Seq<u8>, Seq<char>>::empty(),
            r.page_names() == Seq::<Seq<u8>>::empty(),
            r.type_doc() == Seq::<char>::empty(),
            r.pending() == None::<Seq<char>>,
    {
        UserDataWrapper {
            cont,
            documentation: DocPages::new(),
            type_doc: String::new(),
            next_docs: None,
        }
    }

    /// Adds `documentation` to what the next registered method or field is
    /// documented with; texts given one after the other are joined by a newline.
    pub fn document(&mut self, documentation: &str)
        requires
            old(self).wf(),
        ensures
            final(self).wf(),
            final(self).pending() == pending_after(old(self).pending(), documentation@),
            old(self).pending() is None ==> final(self).pending() == Some(documentation@),
            old(self).pending() matches Some(q) ==> final(self).pending() == Some(
                q + "\n"@ + documentation@,
            ),
            final(self).pages() == old(self).pages(),
            final(self).page_names() == old(self).page_names(),
            final(self).type_doc() == old(self).type_doc(),
            final(self).container() == old(self).container(),
    {
        match self.next_docs.take() {
            Some(mut x) => {
                x.append("\n");
                x.append(documentation);
                self.next_docs = Some(x);
            },
            None => {
                self.next_docs = Some(documentation.to_owned());
            },
        }
    }

    /// Adds a line to the documentation of the type itself.
    pub fn document_type(&mut self, documentation: &str)
        requires
            old(self).wf(),
        ensures
            final(self).wf(),
            final(self).type_doc() == old(self).type_doc() + documentation@ + "\n"@,
            final(self).pending() == old(self).pending(),
            final(self).pages() == old(self).pages(),
            final(self).page_names() == old(self).page_names(),
            final(self).container() == old(self).container(),
    {
        self.type_doc.append(documentation);
        self.type_doc.append("\n");
    }

    /// Records the page of the method or function `to`, whose signature is
    /// `signature` (`None` where no signature could be generated), and uses
    /// up the pending documentation.
    pub fn copy_method_docs(&mut self, to: &[u8], signature: Option<String>)
        requires
            old(self).wf(),
        ensures
            final(self).wf(),
            final(self).pages() == old(self).pages().insert(
                to@,
                method_page(
                    match signature {
                        Some(s) => Some(s@),
                        None => None,
                    },
                    old(self).pending(),
                ),
            ),
            final(self).page_names() == names_after_insert(old(self).page_names(), to@),
            old(self).pending() matches Some(p) ==> final(self).pages()[to@] == (match signature {
                Some(s) => "Signature: "@ + s@,
                None => Seq::<char>::empty(),
            }) + "\n\ndocs:\n"@ + p,
            old(self).pending() is None ==> final(self).pages()[to@] == (match signature {
                Some(s) => "Signature: "@ + s@,
                None => Seq::<char>::empty(),
            }) + "\n\ndocs:\n"@,
            forall|k: Seq<u8>| k != to@ ==> #[trigger] final(self).pages().contains_key(k) == old(
                self,
            ).pages().contains_key(k) && final(self).pages()[k] == old(self).pages()[k],
            final(self).pending() == None::<Seq<char>>,
            final(self).type_doc() == old(self).type_doc(),
            final(self).container() == old(self).container(),
    {
        let mut docs = match signature {
            Some(v) => {
                let mut g = "Signature: ".to_owned();
                g.append(v.as_str());
                g
            },
            None => String::new(),
        };
        docs.append("\n\ndocs:\n");
        match self.next_docs.take() {
            Some(p) => docs.append(p.as_str()),
            None => {},
        }
        self.documentation.insert(to, docs);
    }

    /// Records the page of the field `name`, whose type is written
    /// `field_type`, and uses up the pending documentation. A field that has a
    /// page already (its getter was registered before its setter, say) keeps
    /// it, and the new documentation is added at its end.
    pub fn copy_field_docs(&mut self, name: &[u8], field_type: &str)
        requires
            old(self).wf(),
        ensures
            final(self).wf(),
            final(self).pages() == old(self).pages().insert(
                name@,
                field_page(
                    if old(self).pages().contains_key(name@) {
                        Some(old(self).pages()[name@])
                    } else {
                        None
                    },
                    field_type@,
                    old(self).pending(),
                ),
            ),
            old(self).page_names().contains(name@) ==> final(self).page_names() == old(
                self,
            ).page_names().remove(old(self).page_names().index_of(name@)).push(name@),
            !old(self).page_names().contains(name@) ==> final(self).page_names() == old(
                self,
            ).page_names().push(name@),
            !old(self).pages().contains_key(name@) ==> (old(self).pending() matches Some(p)
                ==> final(self).pages()[name@] == field_type@ + "\n\n docs:\n"@ + p),
            !old(self).pages().contains_key(name@) && old(self).pending() is None
                ==> final(self).pages()[name@] == field_type@ + "\n\n docs:\n"@,
            old(self).pages().contains_key(name@) ==> (old(self).pending() matches Some(p)
                ==> final(self).pages()[name@] == old(self).pages()[name@] + p),
            old(self).pages().contains_key(name@) && old(self).pending() is None
                ==> final(self).pages()[name@] == old(self).pages()[name@],
            forall|k: Seq<u8>| k != name@ ==> #[trigger] final(self).pages().contains_key(k) == old(
                self,
            ).pages().contains_key(k) && final(self).pages()[k] == old(self).pages()[k],
            final(self).pending() == None::<Seq<char>>,
            final(self).type_doc() == old(self).type_doc(),
            final(self).container() == old(self).container(),
    {
        let mut current = match self.documentation.remove(name) {
            Some(x) => x,
            None => {
                let mut s = field_type.to_owned();
                s.append("\n\n docs:\n");
                s
            },
        };
        match self.next_docs.take() {
            Some(p) => current.append(p.as_str()),
            None => {},
        }
        let ghost removed = self.documentation.names();
        self.documentation.insert(name, current);
        proof {
            assert(!removed.contains(name@)) by {
                if removed.contains(name@) {
                    let j = choose|j: int| 0 <= j < removed.len() && removed[j] == name@;
                    assert(self.documentation.pages().contains_key(name@));
                }
            }
            assert(old(self).pages().remove(name@).insert(name@, current@) =~= old(
                self,
            ).pages().insert(name@, current@));
        }
    }

    /// Freezes the pages recorded so far and the documentation of the type,
    /// for the `help` function; then records the page of `help` itself, whose
    /// signature is `help_signature`, as registering it does.
    pub fn generate_help(&mut self, help_signature: Option<String>) -> (r: HelpPages)
        requires
            old(self).wf(),
        ensures
            r.wf(),
            r.pages() == old(self).pages(),
            r.names() == old(self).page_names(),
            r.type_doc() == old(self).type_doc(),
            final(self).wf(),
            final(self).pages() == old(self).pages().insert(
                encode_utf8("help"@),
                method_page(
                    match help_signature {
                        Some(s) => Some(s@),
                        None => None,
                    },
                    old(self).pending(),
                ),
            ),
            final(self).page_names() == names_after_insert(
                old(self).page_names(),
                encode_utf8("help"@),
            ),
            final(self).pending() == None::<Seq<char>>,
            final(self).type_doc() == old(self).type_doc(),
            final(self).container() == old(self).container(),
    {
        let help = self.documentation.snapshot();
        let type_doc = self.type_doc.clone();
        let r = HelpPages::new(help, type_doc);
        self.copy_method_docs("help".as_bytes(), help_signature);
        r
    }

    /// The container that methods and fields are registered with.
    pub fn container_mut(&mut self) -> (r: &mut C)
        ensures
            *r == old(self).container(),
            final(self).container() == *final(r),
            final(self).wf() == old(self).wf(),
            final(self).pages() == old(self).pages(),
            final(self).page_names() == old(self).page_names(),
            final(self).type_doc() == old(self).type_doc(),
            final(self).pending() == old(self).pending(),
    {
        &mut self.cont
    }

    /// The documentation store.
    pub fn documentation(&self) -> (r: &DocPages)
        ensures
            r.pages() == self.pages(),
            r.names() == self.page_names(),
            r.wf() == self.wf(),
    {
        &self.documentation
    }

    /// The documentation of the type itself.
    pub fn type_documentation(&self) -> (r: &str)
        ensures
            r@ == self.type_doc(),
    {
        self.type_doc.as_str()
    }

    /// The documentation given since the last registration, if any.
    pub fn pending_documentation(&self) -> (r: Option<&str>)
        ensures
            match r {
                Some(s) => self.pending() == Some(s@),
                None => self.pending() == None::<Seq<char>>,
            },
    {
        match &self.next_docs {
            Some(s) => Some(s.as_str()),
            None => None,
        }
    }
}

} // verus!
