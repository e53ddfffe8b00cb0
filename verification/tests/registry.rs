use code_executor::util::{error_path, join_path, output_path, path_hash, unique_path_for};
use code_executor::{
    cpp, default_sandbox_config, generate_unique_path, java, language, python, rust, CommandArgs,
    Compiler, ErrorKind, Language, LanguageKey, Resource,
};

#[test]
fn join_path_follows_the_three_cases() {
    assert_eq!(join_path("/tmp", "abc"), "/tmp/abc");
    assert_eq!(join_path("/tmp/", "abc"), "/tmp/abc");
    assert_eq!(join_path("", "abc"), "abc");
    assert_eq!(join_path("/tmp", "/abs"), "/abs");
    assert_eq!(join_path("/tmp", ""), "/tmp/");
    assert_eq!(join_path("/", "x"), "/x");
    assert_eq!(join_path("r\u{e9}p", "f\u{fc}r"), "r\u{e9}p/f\u{fc}r");
}

#[test]
fn join_path_agrees_with_path_buf() {
    for base in ["/tmp", "/tmp/", "", "/", "a/b", "a//"] {
        for name in ["abc", "", "/abs", "x/y", "main.cpp"] {
            let mut expected = std::path::PathBuf::from(base);
            expected.push(name);
            assert_eq!(join_path(base, name), expected.to_str().unwrap(), "{:?} {:?}", base, name);
        }
    }
}

#[test]
fn unique_path_for_an_identifier() {
    assert_eq!(
        unique_path_for("/tmp", "67e55044-10b1-426f-9247-bb680e5fe0c8"),
        "/tmp/67e55044-10b1-426f-9247-bb680e5fe0c8"
    );
}

#[test]
fn generated_path_ends_in_a_random_identifier() {
    let path = generate_unique_path("/var/tmp");
    assert!(path.starts_with("/var/tmp/"));
    let id = &path["/var/tmp/".len()..];
    assert_eq!(id.len(), 36);
    assert!(id.chars().all(|c| c == '-' || c.is_ascii_digit() || ('a'..='f').contains(&c)));
    for at in [8, 13, 18, 23] {
        assert_eq!(id.as_bytes()[at], b'-');
    }
    assert_eq!(id.as_bytes()[14], b'4');
    let other = generate_unique_path("/var/tmp");
    assert_eq!(other.len(), path.len());
}

#[test]
fn compile_without_a_build_command_accepts() {
    let compiler = python().compiler;
    assert_eq!(compiler.compile("/tmp/p".to_string(), Vec::new()).unwrap(), "/tmp/p");
    assert_eq!(compiler.compile("/tmp/p".to_string(), b"ignored".to_vec()).unwrap(), "/tmp/p");
}

#[test]
fn compile_accepts_a_silent_build() {
    let compiler = cpp().compiler;
    assert_eq!(compiler.compile("/tmp/q".to_string(), Vec::new()).unwrap(), "/tmp/q");
}

#[test]
fn compile_fails_on_any_diagnostics() {
    let compiler = rust().compiler;
    let error = compiler
        .compile("/tmp/q".to_string(), b"warning: unused variable\n".to_vec())
        .unwrap_err();
    assert_eq!(error.kind(), ErrorKind::Compilation);
    assert_eq!(error.message(), "warning: unused variable\n");
    assert_eq!(error.describe(), "Compilation error: warning: unused variable\n");
    let blank = compiler.compile("/tmp/q".to_string(), b" ".to_vec()).unwrap_err();
    assert_eq!(blank.kind(), ErrorKind::Compilation);
    assert_eq!(blank.message(), " ");
}

#[test]
fn compile_fails_with_io_on_undecodable_diagnostics() {
    let compiler = java().compiler;
    let error = compiler.compile("/tmp/q".to_string(), vec![b'e', 0xff, b'r']).unwrap_err();
    assert_eq!(error.kind(), ErrorKind::IO);
}

#[test]
fn should_create_valid_project_directory() {
    for lang in [cpp(), rust(), java(), python()] {
        let path = lang.compiler.main_file_path("/tmp/67e55044");
        assert_eq!(path, format!("/tmp/67e55044/{}", lang.compiler.main_file));
    }
}

#[test]
fn registry_holds_the_four_languages() {
    let expected = [
        (LanguageKey::Cpp, "main.cpp", Some(("g++", vec!["-o", "main", "main.cpp"])), "./main", vec![]),
        (LanguageKey::Rust, "main.rs", Some(("rustc", vec!["-O", "main.rs"])), "./main", vec![]),
        (LanguageKey::Java, "Main.java", Some(("javac", vec!["Main.java"])), "java", vec!["Main"]),
        (LanguageKey::Python, "main.py", None, "python", vec!["main.py"]),
    ];
    for (key, main_file, build, binary, args) in expected {
        let lang = language(key);
        assert_eq!(lang.compiler.main_file, main_file);
        match build {
            Some((compiler, compiler_args)) => {
                let found = lang.compiler.args.unwrap();
                assert_eq!(found.binary, compiler);
                assert_eq!(found.args.to_vec(), compiler_args);
            }
            None => assert!(lang.compiler.args.is_none()),
        }
        assert_eq!(lang.runner_args.binary, binary);
        assert_eq!(lang.runner_args.args.to_vec(), args);
    }
    assert_eq!(language(LanguageKey::Cpp), cpp());
    assert_eq!(language(LanguageKey::Rust), rust());
    assert_eq!(language(LanguageKey::Java), java());
    assert_eq!(language(LanguageKey::Python), python());
}

#[test]
fn custom_language_can_be_written_down() {
    let custom = Language {
        compiler: Compiler {
            main_file: "main.c",
            args: Some(CommandArgs { binary: "cc", args: &["-o", "main", "main.c"] }),
        },
        runner_args: CommandArgs { binary: "./main", args: &[] },
    };
    assert_eq!(custom.compiler.main_file_path("/p"), "/p/main.c");
    assert_eq!(custom.compiler.args.unwrap().argv(), vec!["cc", "-o", "main", "main.c"]);
    assert_eq!(custom.runner_args.argv(), vec!["./main"]);
    assert!(custom.runner_args.executable());
}

#[test]
fn command_with_a_zero_byte_is_not_executable() {
    assert!(CommandArgs { binary: "java", args: &["Main"] }.executable());
    assert!(!CommandArgs { binary: "ja\0va", args: &["Main"] }.executable());
    assert!(!CommandArgs { binary: "java", args: &["Main", "a\0"] }.executable());
    assert!(CommandArgs { binary: "", args: &[] }.executable());
}

#[test]
fn default_config_denies_fork_and_bounds_four_resources() {
    let config = default_sandbox_config();
    assert_eq!(config.syscall_denylist, &["fork", "vfork"]);
    let kinds: Vec<Resource> = config.rlimit_configs.iter().map(|l| l.resource).collect();
    assert_eq!(
        kinds,
        vec![Resource::RLIMIT_STACK, Resource::RLIMIT_AS, Resource::RLIMIT_CPU, Resource::RLIMIT_FSIZE]
    );
    assert_eq!(config.rlimit_configs[0].soft_limit, 1024 * 1024 * 1024);
    assert_eq!(config.rlimit_configs[1].hard_limit, 1024 * 1024 * 1024);
    assert_eq!((config.rlimit_configs[2].soft_limit, config.rlimit_configs[2].hard_limit), (60, 90));
    assert_eq!(config.rlimit_configs[3].soft_limit, 1024);
    assert!(config.rlimit_configs.iter().all(|l| l.soft_limit <= l.hard_limit));
}

#[test]
fn distinct_executions_get_distinct_directories() {
    let mut seen = std::collections::HashSet::new();
    for _ in 0..64 {
        assert!(seen.insert(generate_unique_path("/tmp")));
    }
    assert_ne!(
        unique_path_for("/tmp", "67e55044-10b1-426f-9247-bb680e5fe0c8"),
        unique_path_for("/tmp", "67e55044-10b1-426f-9247-bb680e5fe0c9")
    );
}

#[test]
fn path_hash_is_the_known_hash_of_the_bytes() {
    assert_eq!(path_hash(""), 0xcbf2_9ce4_8422_2325);
    assert_eq!(path_hash("a"), 0xaf63_dc4c_8601_ec8c);
    assert_eq!(path_hash("foobar"), 0x8594_4171_f739_67e8);
    assert_ne!(path_hash("/tmp/in/1.txt"), path_hash("/tmp/in/2.txt"));
    assert_eq!(path_hash("/tmp/in/1.txt"), path_hash("/tmp/in/1.txt"));
}

#[test]
fn sinks_are_named_by_the_hash_of_the_input_path() {
    assert_eq!(output_path("/p", "a"), "/p/12638187200555641996.out");
    assert_eq!(error_path("/p", "a"), "/p/12638187200555641996.err");
    assert_eq!(output_path("/p/", ""), "/p/14695981039346656037.out");
    assert_eq!(error_path("", "foobar"), "9625390261332436968.err");
    for input in ["/data/1/in.txt", "/data/2/in.txt", "in.txt", ""] {
        let hash = path_hash(input);
        assert_eq!(output_path("/tmp/x", input), format!("/tmp/x/{}.out", hash));
        assert_eq!(error_path("/tmp/x", input), format!("/tmp/x/{}.err", hash));
        assert_ne!(output_path("/tmp/x", input), error_path("/tmp/x", input));
    }
    assert_ne!(output_path("/p", "/data/1/in.txt"), output_path("/p", "/data/2/in.txt"));
}
