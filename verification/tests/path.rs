use configurate::path::NodePath;
use configurate::path::NodePathBuf;

#[test]
fn from_slice_exposes_the_same_segments() {
    let path = NodePath::from_slice(&["foo", "bar"]);
    assert_eq!(path.as_slice(), &["foo", "bar"]);
}

#[test]
fn from_slice_of_strings_and_of_other_paths() {
    let string = String::from("foo");
    let segments = [string.as_str()];
    let from_string = NodePath::from_slice(&segments);
    let from_node_path = NodePath::from_slice(from_string.as_slice());
    assert_eq!(from_string, from_node_path);
}

#[test]
fn view_equality_is_elementwise_text_equality() {
    let owned_foo = String::from("foo");
    let left_segments = ["foo", "bar"];
    let right_segments = [owned_foo.as_str(), "bar"];
    let left = NodePath::from_slice(&left_segments);
    let right = NodePath::from_slice(&right_segments);
    assert_eq!(left, right);

    let shorter_segments = ["foo"];
    let other_segments = ["foo", "baz"];
    assert_ne!(left, NodePath::from_slice(&shorter_segments));
    assert_ne!(left, NodePath::from_slice(&other_segments));
}

#[test]
fn round_trip_view_to_buffer_and_back() {
    let segments = ["foo", "bar", "baz"];
    let view = NodePath::from_slice(&segments);
    let buf = view.to_node_path_buf();
    assert_eq!(buf.as_slice(), view.as_slice());
}

#[test]
fn new_buffer_is_empty() {
    let buf = NodePathBuf::new();
    assert_eq!(buf.as_slice(), &[] as &[&str]);
}

#[test]
fn default_buffer_is_empty() {
    let buf = NodePathBuf::default();
    assert_eq!(buf.as_slice(), &[] as &[&str]);
}

#[test]
fn buffer_from_slice_keeps_order() {
    let from_slice = NodePathBuf::from_slice(&["foo", "bar"]);
    assert_eq!(from_slice.as_slice(), &["foo", "bar"]);
}

#[test]
fn push_appends_every_segment_in_order() {
    let mut buf = NodePathBuf::new();
    buf.push(NodePath::from_slice(&["foo", "bar"]));
    assert_eq!(buf.as_slice(), &["foo", "bar"]);
}

#[test]
fn buffer_accumulates_single_segment_views_in_order() {
    let mut buf = NodePathBuf::new();
    buf.push(NodePath::from_slice(&["a"]));
    buf.push(NodePath::from_slice(&["b"]));
    buf.push(NodePath::from_slice(&["c"]));
    assert_eq!(buf.as_slice(), &["a", "b", "c"]);
}

#[test]
fn push_of_empty_view_changes_nothing() {
    let mut buf = NodePathBuf::from_slice(&["a"]);
    buf.push(NodePath::from_slice(&[]));
    assert_eq!(buf.as_slice(), &["a"]);
}

#[test]
fn with_capacity_starts_empty() {
    let buf = NodePathBuf::with_capacity(10);
    assert_eq!(buf.as_slice(), &[] as &[&str]);
    assert!(buf.capacity() >= 10);
}

#[test]
fn pushes_within_capacity_do_not_reallocate() {
    let mut buf = NodePathBuf::with_capacity(3);
    let capacity = buf.capacity();
    buf.push(NodePath::from_slice(&["a"]));
    buf.push(NodePath::from_slice(&["b"]));
    buf.push(NodePath::from_slice(&["c"]));
    assert_eq!(capacity, buf.capacity());
    assert_eq!(buf.as_slice(), &["a", "b", "c"]);
}

#[test]
fn buffer_view_reads_the_same_as_the_buffer() {
    let buf = NodePathBuf::from_slice(&["foo", "bar"]);
    let view = buf.as_view();
    assert_eq!(view.as_slice(), buf.as_slice());
}

#[test]
fn owned_buffer_is_an_independent_copy() {
    let segments = ["foo", "bar"];
    let view = NodePath::from_slice(&segments);
    let mut buf = view.to_node_path_buf();
    buf.push(NodePath::from_slice(&["baz"]));
    assert_eq!(view.as_slice(), &["foo", "bar"]);
    assert_eq!(buf.as_slice(), &["foo", "bar", "baz"]);
}
