use godmode::env_report::{disk_summary, env_report, memory_summary, shell_output, EnvFacts};
use godmode::errors::AppError;
use godmode::file_ops::{
    check_move, check_path, created_message, deleted_message, fs_failure, listing, move_failure,
    moved_message, sort_names, written_message,
};
use godmode::search::{prepare_search, search_filter, Glob, WalkEntry};
use godmode::tools::{
    check_edit, check_grep, check_search, check_url, combine_output, edit_content, edit_message,
    grep_summary, grep_text, header_line, http_report, i32_string, join, search_depth,
    search_summary, grep_reads_file, GREP_DEPTH};

fn text_of(e: &AppError) -> String {
    e.message()
}

fn strings(v: &[&str]) -> Vec<String> {
    v.iter().map(|s| s.to_string()).collect()
}

#[test]
fn shell_output_combines_streams() {
    assert_eq!(combine_output("out", "err", Some(0), true), "out\nerr");
    assert_eq!(combine_output("out\n", "err", Some(0), true), "out\nerr");
    assert_eq!(combine_output("", "", Some(3), false), "Command finished with exit code 3 (no output)");
    assert_eq!(combine_output("x", "", Some(2), false), "x\n[exit code: 2]");
    assert_eq!(combine_output("", "", None, false), "Command finished with exit code -1 (no output)");
    assert_eq!(i32_string(-42), "-42");
    assert_eq!(i32_string(0), "0");
}

#[test]
fn shell_output_decodes_bytes() {
    let out = shell_output(&b"hello".to_vec(), &vec![0xff], Some(1), false);
    assert_eq!(out, "hello\n\u{fffd}\n[exit code: 1]");
}

#[test]
fn urls_are_checked() {
    assert!(check_url("https://example.com").is_ok());
    assert!(check_url("http://x").is_ok());
    assert_eq!(text_of(&check_url("").unwrap_err()), "Missing url");
    assert_eq!(
        text_of(&check_url("ftp://x").unwrap_err()),
        "URL must start with http:// or https://"
    );
}

#[test]
fn http_report_layout() {
    assert_eq!(header_line("content-type", Some("text/html")), "content-type: text/html");
    assert_eq!(header_line("x", None), "x: ?");
    let r = http_report("200 OK", &strings(&["a: 1", "b: 2"]), "hi");
    assert_eq!(r, "status: 200 OK\nheaders:\na: 1\nb: 2\n\nbody:\nhi");
    let long = "x".repeat(50_001);
    let r = http_report("200 OK", &Vec::new(), &long);
    assert!(r.ends_with("\n… body truncated (50001 bytes total)"));
    let wide = format!("a{}", "é".repeat(25_000));
    let r = http_report("200 OK", &Vec::new(), &wide);
    let cut = format!("a{}", "é".repeat(24_999));
    assert_eq!(r, format!("status: 200 OK\nheaders:\n\n\nbody:\n{cut}\n… body truncated (50001 bytes total)"));
}

#[test]
fn search_and_grep_arguments() {
    assert_eq!(text_of(&check_search("", "*.rs").unwrap_err()), "Missing root path");
    assert_eq!(text_of(&check_search("/", "").unwrap_err()), "Missing pattern");
    assert!(check_search("/", "*").is_ok());
    assert_eq!(text_of(&check_grep("", "x").unwrap_err()), "Missing path");
    assert_eq!(search_depth(0), 1);
    assert_eq!(search_depth(8), 8);
    assert_eq!(search_depth(100), 32);
}

#[test]
fn search_reports() {
    assert_eq!(search_summary(&Vec::new(), "*.rs", "/src"), "No files matching '*.rs' under '/src'");
    assert_eq!(search_summary(&strings(&["a", "b"]), "*", "/"), "a\nb");
    let many: Vec<String> = (0..200).map(|i| i.to_string()).collect();
    assert!(search_summary(&many, "*", "/").ends_with("\n… capped at 200 results"));
    assert_eq!(grep_summary(&Vec::new(), "fn", "src"), "No matches for 'fn' in 'src'");
}

#[test]
fn glob_filters_walk() {
    let (g, depth) = match prepare_search("/root", "*.rs", 0) {
        Ok(x) => x,
        Err(_) => panic!("valid search"),
    };
    assert_eq!(depth, 1);
    assert!(g.matches("main.rs"));
    assert!(!g.matches("main.py"));
    let entries = vec![
        WalkEntry { path: "/root/a.rs".to_string(), name: "a.rs".to_string() },
        WalkEntry { path: "/root/b.txt".to_string(), name: "b.txt".to_string() },
        WalkEntry { path: "/root/c.rs".to_string(), name: "c.rs".to_string() },
    ];
    assert_eq!(search_filter(&g, &entries), strings(&["/root/a.rs", "/root/c.rs"]));
}

#[test]
fn glob_caps_results() {
    let g = match Glob::compile("*") {
        Ok(g) => g,
        Err(_) => panic!("valid glob"),
    };
    let entries: Vec<WalkEntry> = (0..250)
        .map(|i| WalkEntry { path: format!("/p/{i}"), name: format!("{i}") })
        .collect();
    let found = search_filter(&g, &entries);
    assert_eq!(found.len(), 200);
    assert_eq!(found[199], "/p/199");
}

#[test]
fn invalid_glob_is_refused() {
    match prepare_search("/", "a***", 8) {
        Err(e) => assert_eq!(
            text_of(&e),
            "Invalid glob pattern 'a***': Pattern syntax error near position 3: wildcards are either regular `*` or recursive `**`"
        ),
        Ok(_) => panic!("invalid glob accepted"),
    }
    assert!(matches!(prepare_search("", "*", 8), Err(AppError::Tool(_))));
}

#[test]
fn grep_lines() {
    let mut found = Vec::new();
    grep_text("f.rs", "fn main() {}\nlet x = 1;\r\nFN other", "fn", false, &mut found);
    assert_eq!(found, strings(&["f.rs:1:fn main() {}"]));
    let mut found = Vec::new();
    grep_text("f.rs", "fn main() {}\nlet x = 1;\nFN other", "fn", true, &mut found);
    assert_eq!(found, strings(&["f.rs:1:fn main() {}", "f.rs:3:FN other"]));
    assert_eq!(grep_summary(&found, "fn", "f.rs"), "f.rs:1:fn main() {}\nf.rs:3:FN other");
}

#[test]
fn grep_stops_at_the_cap() {
    let mut found: Vec<String> = (0..498).map(|i| format!("a.rs:{}:hit", i + 1)).collect();
    grep_text("b.rs", "hit one\nmiss\nhit two\nhit three", "hit", false, &mut found);
    assert_eq!(found.len(), 500);
    assert_eq!(found[0], "a.rs:1:hit");
    assert_eq!(found[498], "b.rs:1:hit one");
    assert_eq!(found[499], "b.rs:3:hit two");
}

#[test]
fn edit_replaces_text() {
    assert_eq!(text_of(&check_edit("", "a").unwrap_err()), "Missing path");
    assert_eq!(text_of(&check_edit("p", "").unwrap_err()), "Missing old_text");
    assert!(check_edit("p", "a").is_ok());
    match edit_content("f", "a-b-a", "a", "xy", false) {
        Ok((t, n)) => {
            assert_eq!(t, "xy-b-a");
            assert_eq!(n, 1);
        }
        Err(_) => panic!("edit failed"),
    }
    match edit_content("f", "a-b-a", "a", "xy", true) {
        Ok((t, n)) => {
            assert_eq!(t, "xy-b-xy");
            assert_eq!(n, 2);
        }
        Err(_) => panic!("edit failed"),
    }
    match edit_content("f", "aaa", "aa", "b", true) {
        Ok((t, n)) => {
            assert_eq!(t, "ba");
            assert_eq!(n, 1);
        }
        Err(_) => panic!("edit failed"),
    }
    let e = edit_content("f.txt", "abc", "zz", "y", false).err().unwrap();
    assert_eq!(text_of(&e), "old_text not found in 'f.txt'");
    assert_eq!(edit_message("f.txt", 2), "Edited 'f.txt' (2 replacement(s))");
}

#[test]
fn file_messages() {
    assert_eq!(text_of(&check_path("").unwrap_err()), "Missing path");
    assert!(check_path("a").is_ok());
    assert_eq!(text_of(&check_move("a", "").unwrap_err()), "Missing from or to path");
    assert!(check_move("a", "b").is_ok());
    assert_eq!(
        text_of(&fs_failure("Failed to read file", "a.txt", "not found")),
        "Failed to read file 'a.txt': not found"
    );
    assert_eq!(text_of(&move_failure("a", "b", "busy")), "Failed to move 'a' → 'b': busy");
    assert_eq!(written_message("a"), "Successfully wrote to 'a'");
    assert_eq!(deleted_message("d", true), "Deleted directory 'd'");
    assert_eq!(deleted_message("f", false), "Deleted file 'f'");
    assert_eq!(created_message("d"), "Created directory 'd'");
    assert_eq!(moved_message("a", "b"), "Moved 'a' → 'b'");
}

#[test]
fn directory_listing_is_sorted() {
    assert_eq!(listing("/tmp/x", &Vec::new()), "Directory '/tmp/x' is empty");
    assert_eq!(listing("/", &strings(&["b", "a", "C", "ab", "é"])), "C\na\nab\nb\né");
    assert_eq!(sort_names(&strings(&["z", "y", "z"])), strings(&["y", "z", "z"]));
    assert_eq!(join(&strings(&["a", "b"]), ", "), "a, b");
}

#[test]
fn memory_and_disk_lines() {
    let data = "MemTotal:  16 kB\nMemFree: 1 kB\nMemAvailable:   8 kB  \n";
    assert_eq!(memory_summary(data), "memory: MemTotal:  16 kB, MemAvailable:   8 kB");
    assert_eq!(memory_summary("MemTotal: 1 kB\n"), "memory: unavailable");
    let df = b"Filesystem Size Used Avail Use% Mounted on\n/dev/sda1 100G 50G 50G 50% /\n".to_vec();
    assert_eq!(disk_summary(&df, true), "disk (root): /dev/sda1 100G 50G 50G 50% /");
    assert_eq!(disk_summary(&df, false), "disk: unavailable");
    assert_eq!(disk_summary(&b"only header\n".to_vec(), true), "disk: unavailable");
}

#[test]
fn environment_report() {
    let f = EnvFacts {
        os: "linux".to_string(),
        arch: "x86_64".to_string(),
        family: "unix".to_string(),
        user: Some("me".to_string()),
        home: None,
        shell: Some("/bin/sh".to_string()),
        cwd: None,
        hostname: Some("box\n".to_string()),
        memory: Some("memory: unavailable".to_string()),
        disk: None,
    };
    assert_eq!(
        env_report(&f),
        "os: linux\narch: x86_64\nfamily: unix\nuser: me\nshell: /bin/sh\nhostname: box\nmemory: unavailable"
    );
}

#[test]
fn grep_skips_large_files() {
    assert!(grep_reads_file(2_000_000));
    assert!(!grep_reads_file(2_000_001));
    assert_eq!(GREP_DEPTH, 12);
}
