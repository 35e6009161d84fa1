use tealr::help::HelpPages;
use tealr::pages::{bytes_eq, DocPages};
use tealr::wrapper::UserDataWrapper;

const NOT_FOUND: &str = "The given key is not found. Use `.help()` to list available pages.";

fn text_of(w: &UserDataWrapper<()>, name: &[u8]) -> Option<String> {
    w.documentation().get(name).cloned()
}

#[test]
fn new_wrappers_are_empty() {
    let w = UserDataWrapper::from_user_data_methods(());
    assert_eq!(w.documentation().len(), 0);
    assert_eq!(w.type_documentation(), "");
    assert_eq!(w.pending_documentation(), None);
    let f = UserDataWrapper::from_user_data_fields(5u32);
    assert_eq!(f.documentation().len(), 0);
    assert_eq!(f.pending_documentation(), None);
}

#[test]
fn document_joins_texts_by_newline() {
    let mut w = UserDataWrapper::from_user_data_methods(());
    w.document("first");
    assert_eq!(w.pending_documentation(), Some("first"));
    w.document("second");
    assert_eq!(w.pending_documentation(), Some("first\nsecond"));
    assert_eq!(w.documentation().len(), 0);
}

#[test]
fn document_type_adds_lines() {
    let mut w = UserDataWrapper::from_user_data_methods(());
    w.document_type("A type.");
    w.document_type("More.");
    assert_eq!(w.type_documentation(), "A type.\nMore.\n");
    assert_eq!(w.pending_documentation(), None);
}

#[test]
fn method_page_with_signature_and_docs() {
    let mut w = UserDataWrapper::from_user_data_methods(());
    w.document("Adds one.");
    w.copy_method_docs(b"inc", Some("function(self, integer): integer".to_string()));
    assert_eq!(
        text_of(&w, b"inc"),
        Some("Signature: function(self, integer): integer\n\ndocs:\nAdds one.".to_string())
    );
    assert_eq!(w.pending_documentation(), None);
}

#[test]
fn method_page_without_signature_or_docs() {
    let mut w = UserDataWrapper::from_user_data_methods(());
    w.copy_method_docs(b"bare", None);
    assert_eq!(text_of(&w, b"bare"), Some("\n\ndocs:\n".to_string()));
}

#[test]
fn pending_docs_go_to_one_registration_only() {
    let mut w = UserDataWrapper::from_user_data_methods(());
    w.document("for a");
    w.copy_method_docs(b"a", None);
    w.copy_method_docs(b"b", None);
    assert_eq!(text_of(&w, b"a"), Some("\n\ndocs:\nfor a".to_string()));
    assert_eq!(text_of(&w, b"b"), Some("\n\ndocs:\n".to_string()));
}

#[test]
fn method_registered_twice_keeps_last_page() {
    let mut w = UserDataWrapper::from_user_data_methods(());
    w.document("old");
    w.copy_method_docs(b"m", None);
    w.document("new");
    w.copy_method_docs(b"m", Some("sig".to_string()));
    assert_eq!(w.documentation().len(), 1);
    assert_eq!(text_of(&w, b"m"), Some("Signature: sig\n\ndocs:\nnew".to_string()));
}

#[test]
fn field_getter_and_setter_share_a_page() {
    let mut w = UserDataWrapper::from_user_data_fields(());
    w.document("Read it.");
    w.copy_field_docs(b"count", "integer");
    assert_eq!(text_of(&w, b"count"), Some("integer\n\n docs:\nRead it.".to_string()));
    w.document("Write it.");
    w.copy_field_docs(b"count", "string");
    assert_eq!(
        text_of(&w, b"count"),
        Some("integer\n\n docs:\nRead it.Write it.".to_string())
    );
    assert_eq!(w.documentation().len(), 1);
    assert_eq!(w.pending_documentation(), None);
}

#[test]
fn field_without_docs() {
    let mut w = UserDataWrapper::from_user_data_fields(());
    w.copy_field_docs(b"x", "number");
    assert_eq!(text_of(&w, b"x"), Some("number\n\n docs:\n".to_string()));
}

#[test]
fn generate_help_freezes_pages_then_documents_help() {
    let mut w = UserDataWrapper::from_user_data_methods(());
    w.document_type("Example type.");
    w.copy_method_docs(b"go", None);
    w.document("Shows help.");
    let help = w.generate_help(Some("function(string?): string".to_string()));
    assert_eq!(
        text_of(&w, b"help"),
        Some("Signature: function(string?): string\n\ndocs:\nShows help.".to_string())
    );
    assert_eq!(w.pending_documentation(), None);
    assert_eq!(help.page(Some(b"help")), NOT_FOUND.as_bytes().to_vec());
    assert_eq!(help.page(Some(b"go")), b"\n\ndocs:\n".to_vec());
    assert_eq!(
        help.page(None),
        b"Example type.\n\nAvailable pages:\ngo\n".to_vec()
    );
}

#[test]
fn help_for_unknown_key() {
    let mut w = UserDataWrapper::from_user_data_methods(());
    let help = w.generate_help(None);
    assert_eq!(help.page(Some(b"nothing")), NOT_FOUND.as_bytes().to_vec());
    assert_eq!(help.page(None), b"\nAvailable pages:\n".to_vec());
}

#[test]
fn help_index_lists_every_page_once_in_order() {
    let mut pages = DocPages::new();
    pages.insert(b"beta", "b".to_string());
    pages.insert(b"alpha", "a".to_string());
    pages.insert(b"beta", "b2".to_string());
    let help = HelpPages::new(pages, "T\n".to_string());
    assert_eq!(help.page(None), b"T\n\nAvailable pages:\nbeta\nalpha\n".to_vec());
    assert_eq!(help.page(Some(b"beta")), b"b2".to_vec());
}

#[test]
fn help_index_newline_after_raw_names() {
    let mut pages = DocPages::new();
    pages.insert(&[0xff, 0x00], "raw".to_string());
    let help = HelpPages::new(pages, String::new());
    assert_eq!(help.page(None), b"\nAvailable pages:\n\xff\x00\n".to_vec());
}

#[test]
fn help_page_is_utf8_of_text() {
    let mut pages = DocPages::new();
    pages.insert(b"caf\xc3\xa9", "h\u{e9}\u{20ac}\u{1f600}".to_string());
    let help = HelpPages::new(pages, String::new());
    assert_eq!(
        help.page(Some("caf\u{e9}".as_bytes())),
        vec![b'h', 0xc3, 0xa9, 0xe2, 0x82, 0xac, 0xf0, 0x9f, 0x98, 0x80]
    );
}

#[test]
fn doc_pages_insert_get_remove() {
    let mut pages = DocPages::new();
    assert_eq!(pages.len(), 0);
    assert!(pages.get(b"k").is_none());
    pages.insert(b"k", "v".to_string());
    pages.insert(b"j", "w".to_string());
    assert_eq!(pages.len(), 2);
    assert_eq!(pages.get(b"k").map(|s| s.as_str()), Some("v"));
    assert_eq!(pages.name_at(0), &b"k".to_vec());
    assert_eq!(pages.name_at(1), &b"j".to_vec());
    assert_eq!(pages.remove(b"k"), Some("v".to_string()));
    assert_eq!(pages.remove(b"k"), None);
    assert_eq!(pages.len(), 1);
    assert_eq!(pages.name_at(0), &b"j".to_vec());
    let copy = pages.snapshot();
    pages.insert(b"j", "changed".to_string());
    assert_eq!(copy.get(b"j").map(|s| s.as_str()), Some("w"));
}

#[test]
fn byte_strings_compare() {
    assert!(bytes_eq(b"abc", b"abc"));
    assert!(!bytes_eq(b"abc", b"abd"));
    assert!(!bytes_eq(b"ab", b"abc"));
    assert!(bytes_eq(b"", b""));
}

#[test]
fn container_can_be_reached_and_changed() {
    let mut w = UserDataWrapper::from_user_data_methods(vec![1u8]);
    w.document("kept");
    w.container_mut().push(2);
    assert_eq!(w.container_mut(), &mut vec![1u8, 2]);
    assert_eq!(w.pending_documentation(), Some("kept"));
}
