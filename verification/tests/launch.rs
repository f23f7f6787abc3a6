use nebula_tower::launch::{
    build_invocation, elevation_script, escape_quotes, has_path_entry, search_path, stream_line,
    Launcher, OutputStream,
};

#[test]
fn path_entries_are_the_parts_between_colons() {
    assert!(has_path_entry("/usr/bin:/app/bin:/bin", "/app/bin"));
    assert!(has_path_entry("/app/bin", "/app/bin"));
    assert!(has_path_entry("/app/bin:/usr/bin", "/app/bin"));
    assert!(has_path_entry("/usr/bin:/app/bin", "/app/bin"));
    assert!(!has_path_entry("/usr/bin:/app/bin2", "/app/bin"));
    assert!(!has_path_entry("/usr/bin:x/app/bin", "/app/bin"));
    assert!(!has_path_entry("", "/app/bin"));
    assert!(has_path_entry("", ""));
    assert!(has_path_entry("/usr/bin:", ""));
    assert!(has_path_entry("a::b", ""));
    assert!(!has_path_entry("a:b", ""));
    assert!(!has_path_entry("a:b", "a:b"));
}

#[test]
fn path_entries_agree_with_std_split() {
    let lists = ["", ":", "a", "a:b", "a:b:", ":a", "ab:a", "a:ab", "b:a:c", "a:a"];
    let entries = ["", "a", "b", "ab", "a:b"];
    for list in lists {
        for entry in entries {
            let expected = list.split(':').any(|p| p == entry);
            assert_eq!(has_path_entry(list, entry), expected, "{:?} in {:?}", entry, list);
        }
    }
}

#[test]
fn search_path_gets_the_bin_directory_once() {
    assert_eq!(search_path("/usr/bin:/bin", "/app/bin"), "/app/bin:/usr/bin:/bin");
    assert_eq!(search_path("/usr/bin:/app/bin", "/app/bin"), "/usr/bin:/app/bin");
    assert_eq!(search_path("", "/app/bin"), "/app/bin:");
    let once = search_path("/usr/bin", "/app/bin");
    assert_eq!(search_path(&once, "/app/bin"), once);
}

#[test]
fn quotes_are_escaped() {
    assert_eq!(escape_quotes(""), "");
    assert_eq!(escape_quotes("plain"), "plain");
    assert_eq!(escape_quotes("\"a\" b"), "\\\"a\\\" b");
    assert_eq!(escape_quotes("a\\b"), "a\\b");
    let s = "\"/x y/nebula\" -config \"/c d/config.yaml\"";
    assert_eq!(escape_quotes(s), s.replace("\"", "\\\""));
}

#[test]
fn elevation_script_wraps_the_command() {
    assert_eq!(
        elevation_script("/app/bin/nebula", "/app/config.yaml"),
        "do shell script \"\\\"/app/bin/nebula\\\" -config \\\"/app/config.yaml\\\"\" with administrator privileges"
    );
}

#[test]
fn direct_invocation_runs_the_binary() {
    let inv = build_invocation(Launcher::Direct, "/usr/local/bin/nebula", "/cfg/app", "/usr/bin");
    assert_eq!(inv.program, "/usr/local/bin/nebula");
    assert_eq!(inv.args, vec!["-config".to_string(), "/cfg/app/config.yaml".to_string()]);
    assert_eq!(inv.working_dir, "/cfg/app");
    assert_eq!(inv.search_path, "/cfg/app/bin:/usr/bin");
}

#[test]
fn elevated_invocation_goes_through_the_prompt() {
    let inv = build_invocation(Launcher::Elevated, "/cfg/app/bin/nebula", "/cfg/app", "/cfg/app/bin:/bin");
    assert_eq!(inv.program, "/usr/bin/osascript");
    assert_eq!(inv.args.len(), 2);
    assert_eq!(inv.args[0], "-e");
    assert_eq!(
        inv.args[1],
        "do shell script \"\\\"/cfg/app/bin/nebula\\\" -config \\\"/cfg/app/config.yaml\\\"\" with administrator privileges"
    );
    assert_eq!(inv.working_dir, "/cfg/app");
    assert_eq!(inv.search_path, "/cfg/app/bin:/bin");
}

#[test]
fn output_lines_carry_the_tag_of_their_stream() {
    assert_eq!(stream_line(OutputStream::Stdout, "up"), "[nebula stdout] up");
    assert_eq!(stream_line(OutputStream::Stderr, "down"), "[nebula stderr] down");
    assert_eq!(stream_line(OutputStream::Stderr, ""), "[nebula stderr] ");
}
