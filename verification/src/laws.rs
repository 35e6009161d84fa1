use vstd::prelude::*;
use vstd::utf8::encode_utf8;

use crate::help::{help_text, index_listing, not_found_text};
use crate::wrapper::{field_page, method_page, pending_after, text_or_empty};

verus! {

/// Once a name has been documented, `help(name)` answers exactly the page
/// recorded for it, whatever else the pages and the type's documentation hold.
pub proof fn law_help_answers_recorded_page(
    pages: Map<Seq<u8>, Seq<char>>,
    names: Seq<Seq<u8>>,
    type_doc: Seq<char>,
    name: Seq<u8>,
    text: Seq<char>,
)
    ensures
        help_text(pages.insert(name, text), names, type_doc, Some(name)) == encode_utf8(text),
{
}

/// `help(name)` for a name that has no page answers the fixed notice.
pub proof fn law_help_unknown_name(
    pages: Map<Seq<u8>, Seq<char>>,
    names: Seq<Seq<u8>>,
    type_doc: Seq<char>,
    name: Seq<u8>,
)
    requires
        !pages.contains_key(name),
    ensures
        help_text(pages, names, type_doc, Some(name)) == encode_utf8(not_found_text()),
{
}

/// `help()` answers the type's documentation, then the line
/// "Available pages:", then the index; the index grows by one line per name.
pub proof fn law_help_index(
    pages: Map<Seq<u8>, Seq<char>>,
    names: Seq<Seq<u8>>,
    type_doc: Seq<char>,
    name: Seq<u8>,
)
    ensures
        help_text(pages, names, type_doc, None) == encode_utf8(
            type_doc + "\n"@ + "Available pages:\n"@,
        ) + index_listing(names),
        index_listing(names.push(name)) == index_listing(names) + name + encode_utf8(seq!['\n']),
        index_listing(Seq::<Seq<u8>>::empty()) == Seq::<u8>::empty(),
{
    assert(names.push(name).drop_last() =~= names);
}

/// Everything documented since the last registration goes, line by line and
/// in order, into the page of the next method registered, after its
/// signature.
pub proof fn law_method_page_keeps_all_pending_docs(
    signature: Option<Seq<char>>,
    first: Seq<char>,
    second: Seq<char>,
)
    ensures
        method_page(signature, pending_after(pending_after(None, first), second)) == text_or_empty(
            match signature {
                Some(v) => Some("Signature: "@ + v),
                None => None,
            },
        ) + "\n\ndocs:\n"@ + first + "\n"@ + second,
        method_page(signature, None) == text_or_empty(
            match signature {
                Some(v) => Some("Signature: "@ + v),
                None => None,
            },
        ) + "\n\ndocs:\n"@,
{
    let generated = match signature {
        Some(v) => "Signature: "@ + v,
        None => Seq::<char>::empty(),
    };
    assert(generated + "\n\ndocs:\n"@ + (first + "\n"@ + second) =~= generated + "\n\ndocs:\n"@
        + first + "\n"@ + second);
    assert(generated + "\n\ndocs:\n"@ + Seq::<char>::empty() =~= generated + "\n\ndocs:\n"@);
}

/// A field's page is started once, from the type given at its first
/// registration; a later registration of the same field (a setter after a
/// getter) only adds its documentation at the end.
pub proof fn law_field_page_started_once(
    first_type: Seq<char>,
    later_type: Seq<char>,
    first_docs: Option<Seq<char>>,
    later_docs: Option<Seq<char>>,
)
    ensures
        field_page(Some(field_page(None, first_type, first_docs)), later_type, later_docs)
            == first_type + "\n\n docs:\n"@ + text_or_empty(first_docs) + text_or_empty(later_docs),
{
}

/// Whatever the signature and whatever the pending documentation `p` (of
/// any length, on one line or several), a method's page is the signature
/// part, then "\n\ndocs:\n", then exactly `p`; a single `document(p)` before
/// the registration leaves exactly `p` pending.
pub proof fn law_method_page_ends_with_pending(signature: Option<Seq<char>>, p: Seq<char>)
    ensures
        pending_after(None, p) == Some(p),
        method_page(signature, Some(p)) == (match signature {
            Some(v) => "Signature: "@ + v,
            None => Seq::<char>::empty(),
        }) + "\n\ndocs:\n"@ + p,
        method_page(signature, None) == (match signature {
            Some(v) => "Signature: "@ + v,
            None => Seq::<char>::empty(),
        }) + "\n\ndocs:\n"@,
        method_page(signature, Some(p)).len() == method_page(signature, None).len() + p.len(),
{
    let generated = match signature {
        Some(v) => "Signature: "@ + v,
        None => Seq::<char>::empty(),
    };
    assert(generated + "\n\ndocs:\n"@ + Seq::<char>::empty() =~= generated + "\n\ndocs:\n"@);
}

/// A field's page: for a field without a page, the field's type, then
/// "\n\n docs:\n", then exactly the pending documentation `p`; for a field
/// that has a page `e` already, `e` followed by exactly `p`. Without pending
/// documentation, nothing is added.
pub proof fn law_field_page_appends_pending(
    existing: Seq<char>,
    field_type: Seq<char>,
    p: Seq<char>,
)
    ensures
        field_page(None, field_type, Some(p)) == field_type + "\n\n docs:\n"@ + p,
        field_page(Some(existing), field_type, Some(p)) == existing + p,
        field_page(None, field_type, None) == field_type + "\n\n docs:\n"@,
        field_page(Some(existing), field_type, None) == existing,
{
    assert(field_type + "\n\n docs:\n"@ + Seq::<char>::empty() =~= field_type + "\n\n docs:\n"@);
    assert(existing + Seq::<char>::empty() =~= existing);
}

/// The index has one name per line for any number of names: each name is
/// followed by the single byte 10, and the index of `n + 1` names is the
/// index of the first `n` followed by the last name and that byte.
pub proof fn law_index_one_name_per_line(names: Seq<Seq<u8>>, name: Seq<u8>)
    ensures
        index_listing(names.push(name)) == index_listing(names) + name + seq![10u8],
        index_listing(names.push(name)).len() == index_listing(names).len() + name.len() + 1,
        index_listing(seq![name]) == name + seq![10u8],
{
    crate::help::lemma_newline_is_one_byte();
    assert(names.push(name).drop_last() =~= names);
    assert(seq![name].drop_last() =~= Seq::<Seq<u8>>::empty());
    assert(seq![name].last() == name);
    assert(index_listing(Seq::<Seq<u8>>::empty()) == Seq::<u8>::empty());
    assert(Seq::<u8>::empty() + name =~= name);
    assert(index_listing(seq![name]) == index_listing(Seq::<Seq<u8>>::empty()) + name + encode_utf8(
        seq!['\n'],
    ));
}

/// Appending a character appends exactly its UTF-8 encoding, whatever the
/// bytes already hold: a newline appends the single byte 10.
pub proof fn law_newline_is_byte_10(before: Seq<u8>)
    ensures
        before + encode_utf8(seq!['\n']) == before.push(10u8),
{
    crate::help::lemma_newline_is_one_byte();
    assert(before + seq![10u8] =~= before.push(10u8));
}

} // verus!
