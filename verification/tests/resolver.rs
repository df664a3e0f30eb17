use lsf_agent::hostname::{debug_bytes, decode_host_name, truncate_at_nul};
use lsf_agent::report::resolve_host_name;

fn mapping(pairs: &[(&str, &str)]) -> Vec<(String, String)> {
    pairs.iter().map(|(k, v)| (k.to_string(), v.to_string())).collect()
}

#[test]
fn mapped_name_gets_mapping_value() {
    let m = mapping(&[("nodeB", "b1"), ("nodeC", "c1")]);
    let r = resolve_host_name(&"mon.".to_string(), &m, &"nodeB".to_string());
    assert_eq!(r, "mon.b1");
}

#[test]
fn unmapped_name_passes_through() {
    let m = mapping(&[("nodeB", "b1")]);
    let r = resolve_host_name(&"mon.".to_string(), &m, &"nodeA".to_string());
    assert_eq!(r, "mon.nodeA");
}

#[test]
fn empty_prefix_and_empty_mapping() {
    let m = mapping(&[]);
    let r = resolve_host_name(&String::new(), &m, &"host7".to_string());
    assert_eq!(r, "host7");
}

#[test]
fn truncates_at_first_zero_byte() {
    let buf = vec![b'a', b'b', 0, b'c', 0, b'd'];
    assert_eq!(truncate_at_nul(&buf), vec![b'a', b'b']);
    let no_nul = vec![b'x', b'y'];
    assert_eq!(truncate_at_nul(&no_nul), vec![b'x', b'y']);
    let empty: Vec<u8> = Vec::new();
    assert_eq!(truncate_at_nul(&empty), empty);
}

#[test]
fn decodes_valid_text() {
    let mut buf = b"node01".to_vec();
    buf.push(0);
    buf.extend_from_slice(b"garbage");
    assert_eq!(decode_host_name(&buf), Ok("node01".to_string()));
}

#[test]
fn invalid_text_degrades_to_escaped_bytes() {
    // 0xff can begin no UTF-8 sequence
    let buf = vec![0xff, b'A', 0x09, 0];
    let r = decode_host_name(&buf);
    assert_eq!(r, Err("\"\\xffA\\t\"".to_string()));
}

#[test]
fn escaped_rendering_of_bytes() {
    let bytes = vec![b'a', b'"', b'\\', b'\'', 0x0a, 0x0d, 0x09, 0x7f, 0x1f, b'~'];
    assert_eq!(debug_bytes(&bytes), "\"a\\\"\\\\\\'\\n\\r\\t\\x7f\\x1f~\"");
}
