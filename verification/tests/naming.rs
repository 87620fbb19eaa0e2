use probers::comments::{
    generate_multiline_comments, generate_probe_deprecation_message, generate_probe_doc_comment,
    generate_trait_comment, systemtap_comment,
};
use probers::naming::{
    add_suffix_to_ident, get_probe_accessor_name, get_provider_impl_mod_name,
    get_provider_impl_struct_type_name, get_provider_impl_struct_var_name,
    get_provider_instance_var_name, get_provider_name, hidden_mod_name, join, join3,
    name_with_hash, native_provider_lib_filename, native_provider_source_filename, push_hex,
};

#[test]
fn provider_name_is_snake_case() {
    assert_eq!(get_provider_name("MyProbes"), "my_probes");
    assert_eq!(get_provider_name("TestTrait"), "test_trait");
    assert_eq!(get_provider_name("XMLHttpRequest"), "xml_http_request");
    assert_eq!(get_provider_name("already_snake"), "already_snake");
}

#[test]
fn implementation_names_follow_the_trait() {
    assert_eq!(get_provider_impl_mod_name("MyProbes"), "__my_probes_provider");
    assert_eq!(get_provider_impl_struct_type_name("MyProbes"), "MyProbesProviderImpl");
    assert_eq!(get_provider_impl_struct_var_name("MyProbes"), "MY_PROBES_PROVIDER_IMPL");
    assert_eq!(get_provider_instance_var_name("MyProbes"), "MY_PROBES_PROVIDER");
    assert_eq!(hidden_mod_name("x_y"), "__x_y");
    assert_eq!(add_suffix_to_ident("probe0", "_impl"), "probe0_impl");
    assert_eq!(get_probe_accessor_name("myprobe"), "get_myprobe_probe");
}

#[test]
fn texts_join_in_order() {
    assert_eq!(join("ab", "cd"), "abcd");
    assert_eq!(join("", ""), "");
    assert_eq!(join3("a", "", "c"), "ac");
}

#[test]
fn hash_is_written_in_lower_case_hex() {
    assert_eq!(name_with_hash("my_probes", 0), "my_probes-0");
    assert_eq!(name_with_hash("my_probes", 15), "my_probes-f");
    assert_eq!(name_with_hash("my_probes", 16), "my_probes-10");
    assert_eq!(name_with_hash("my_probes", 0xABCDEF0123456789), "my_probes-abcdef0123456789");
    assert_eq!(name_with_hash("p", u64::MAX), format!("p-{:x}", u64::MAX));
    assert_eq!(native_provider_source_filename("my_probes", 255), "my_probes-ff.cpp");
    assert_eq!(native_provider_lib_filename("my_probes", 4096), "my_probes-1000.a");
    let mut out = String::from("0x");
    push_hex(&mut out, 0x1f);
    assert_eq!(out, "0x1f");
    for value in [1u64, 9, 10, 17, 255, 256, 65535, 1 << 40, 0x0fed_cba9_8765_4321] {
        assert_eq!(name_with_hash("", value), format!("-{:x}", value));
    }
}

#[test]
fn comment_is_broken_into_lines() {
    assert_eq!(generate_multiline_comments("a\nb"), vec![" a", " b"]);
    assert_eq!(generate_multiline_comments("a\nb\n"), vec![" a", " b"]);
    assert_eq!(generate_multiline_comments("\na\n\nb"), vec![" ", " a", " ", " b"]);
    assert_eq!(generate_multiline_comments("a\r\nb\r\n"), vec![" a", " b"]);
    assert_eq!(generate_multiline_comments("a\rb\nc\r"), vec![" a\rb", " c\r"]);
    assert_eq!(generate_multiline_comments("\r\n"), vec![" "]);
    assert_eq!(generate_multiline_comments(""), Vec::<String>::new());
    assert_eq!(generate_multiline_comments("\n"), vec![" "]);
    assert_eq!(generate_multiline_comments("h\u{e9}\nw"), vec![" h\u{e9}", " w"]);
    for text in ["x\n\ny", "one", "\n\n", "a\r\n\r\nb", "tail\r"] {
        let expected: Vec<String> = text.lines().map(|line| format!(" {}", line)).collect();
        assert_eq!(generate_multiline_comments(text), expected);
    }
}

#[test]
fn trait_comment_names_the_provider() {
    assert_eq!(
        systemtap_comment("my_probes"),
        "This trait corresponds to a SystemTap/USDT provider named `my_probes`"
    );
    let comment = generate_trait_comment("my_probes");
    assert!(comment.starts_with("\n# Probing\n\nThis trait is translated at compile-time by `probers`"));
    assert!(comment.contains(
        "## SystemTap/USDT (Linux x64)\n\nThis trait corresponds to a SystemTap/USDT provider named `my_probes`,\n\n## Other platforms"
    ));
    assert!(comment.ends_with("supported yet\n"));
    let lines = generate_multiline_comments(&comment);
    assert_eq!(lines.len(), 17);
    assert_eq!(lines[0], " ");
    assert_eq!(lines[1], " # Probing");
}

#[test]
fn probe_comments_name_trait_probe_and_provider() {
    assert_eq!(
        generate_probe_deprecation_message("MyProbes", "probe0"),
        "Probe methods should not be called directly.  Use the `probe!` macro, e.g. `probe!(MyProbes::probe0(...))`"
    );
    let comment = generate_probe_doc_comment("MyProbes", "probe0", "my_probes");
    assert!(comment.contains("\nprobe!(MyProbes::probe0(...));\n```\n"));
    assert!(comment.contains(
        "sudo bpftrace -p ${PID} -e 'usdt::my_probes:probe0 { printf(\"Hello from probe0\\n\"); }'\n"
    ));
    assert!(comment.contains("where `${PID}` should be the actual process ID"));
    assert!(comment.starts_with("\n# Probing\n\nThis method is translated"));
}
