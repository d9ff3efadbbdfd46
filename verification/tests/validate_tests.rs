use subspace_cli::validate::{
    bytes_eq, is_valid_chain, is_valid_node_name, is_valid_size, plot_size_bytes,
};

#[test]
fn node_names_must_be_ascii_and_not_blank() {
    assert!(is_valid_node_name("my-node"));
    assert!(is_valid_node_name("  padded  "));
    assert!(!is_valid_node_name(""));
    assert!(!is_valid_node_name("   \t\n"));
    assert!(!is_valid_node_name("nöde"));
}

#[test]
fn known_chains_are_accepted() {
    assert!(is_valid_chain("gemini-2a"));
    assert!(is_valid_chain("dev"));
    assert!(!is_valid_chain("gemini-1"));
    assert!(!is_valid_chain(""));
}

#[test]
fn byte_comparison_is_exact() {
    assert!(bytes_eq(b"abc", b"abc"));
    assert!(!bytes_eq(b"abc", b"abd"));
    assert!(!bytes_eq(b"abc", b"ab"));
    assert!(bytes_eq(b"", b""));
}

#[test]
fn plot_sizes_go_through_the_size_parser() {
    assert_eq!(plot_size_bytes("1000"), Some(1000));
    assert_eq!(plot_size_bytes("1 KiB"), Some(1024));
    assert_eq!(plot_size_bytes("2 MB"), Some(2_000_000));
    assert_eq!(plot_size_bytes("pebbles"), None);

    assert!(is_valid_size("4 GiB"));
    assert!(!is_valid_size("four gigabytes"));
}
