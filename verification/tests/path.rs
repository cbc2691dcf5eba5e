use tapioca::infer::path::mod_ident;

#[test]
fn leading_slash() {
    assert_eq!(mod_ident("/foo"), "foo");
}

#[test]
fn both_slash() {
    assert_eq!(mod_ident("/foo/"), "foo");
}

#[test]
fn no_slash() {
    assert_eq!(mod_ident("foo"), "foo");
}

#[test]
fn trailing_slash() {
    assert_eq!(mod_ident("foo/"), "foo");
}

#[test]
fn multipart() {
    assert_eq!(mod_ident("/foo/bar"), "foo_bar");
}

#[test]
fn resource() {
    assert_eq!(mod_ident("/foo/{id}"), "foo__id_");
}

#[test]
fn multi_resource() {
    assert_eq!(mod_ident("/foo/{id}/{bar}"), "foo__id___bar_");
}

#[test]
fn multipart_resource() {
    assert_eq!(mod_ident("/foo/{id}/bar"), "foo__id__bar");
}

#[test]
fn multipart_multiresource() {
    assert_eq!(mod_ident("/foo/{id}/bar/{bar_id}"), "foo__id__bar__bar_id_");
}
