use code_runner::commands::{
    bin, escape_for_shell, get_command, get_command_on, java_class, recipe_for,
};
use code_runner::{CommandSpec, Platform};

const EXTENSIONS: [&str; 39] = [
    "js", "ts", "py", "go", "rs", "c", "cpp", "cc", "cxx", "java", "php", "rb", "sh", "ps1",
    "lua", "pl", "r", "swift", "dart", "zig", "hs", "jl", "ex", "exs", "cr", "scala", "groovy",
    "clj", "rkt", "ml", "erl", "tcl", "kt", "kts", "nim", "d", "fs", "fsx", "cs",
];

fn strings(items: &[&str]) -> Vec<String> {
    items.iter().map(|s| s.to_string()).collect()
}

fn command(platform: Platform, ext: &str, path: &str) -> (String, Vec<String>) {
    let spec = get_command_on(platform, ext, path).unwrap();
    (spec.program, spec.args)
}

#[test]
fn every_extension_of_the_table_has_a_program() {
    for ext in EXTENSIONS {
        for platform in [Platform::Posix, Platform::Windows] {
            let spec = get_command_on(platform, ext, "/tmp/file");
            assert!(spec.is_some());
            assert!(!spec.unwrap().program.is_empty());
        }
        let spec = get_command(ext, "/tmp/file");
        assert!(spec.is_some());
        assert!(!spec.unwrap().program.is_empty());
        assert!(recipe_for(ext).is_some());
    }
}

#[test]
fn other_extensions_have_no_command() {
    for ext in ["", "xyz", "PY", "py ", "txt", "jsx", "c++", "javac", "."] {
        assert!(get_command_on(Platform::Posix, ext, "/tmp/file").is_none());
        assert!(get_command_on(Platform::Windows, ext, "/tmp/file").is_none());
        assert!(get_command(ext, "/tmp/file").is_none());
        assert!(recipe_for(ext).is_none());
    }
}

#[test]
fn interpreters_take_the_path() {
    let cases = [
        ("js", "node"),
        ("py", "python"),
        ("php", "php"),
        ("rb", "ruby"),
        ("sh", "bash"),
        ("lua", "lua"),
        ("pl", "perl"),
        ("r", "Rscript"),
        ("swift", "swift"),
        ("hs", "runhaskell"),
        ("jl", "julia"),
        ("ex", "elixir"),
        ("exs", "elixir"),
        ("scala", "scala"),
        ("groovy", "groovy"),
        ("clj", "clojure"),
        ("rkt", "racket"),
        ("ml", "ocaml"),
        ("erl", "escript"),
        ("tcl", "tclsh"),
    ];
    for (ext, program) in cases {
        for platform in [Platform::Posix, Platform::Windows] {
            let (p, args) = command(platform, ext, "/tmp/it's here.src");
            assert_eq!(p, program);
            assert_eq!(args, strings(&["/tmp/it's here.src"]));
        }
    }
}

#[test]
fn tools_take_a_subcommand_and_the_path() {
    let cases = [
        ("ts", "npx", "tsx"),
        ("go", "go", "run"),
        ("dart", "dart", "run"),
        ("zig", "zig", "run"),
        ("cr", "crystal", "run"),
        ("fs", "dotnet", "fsi"),
        ("fsx", "dotnet", "fsi"),
        ("cs", "dotnet", "script"),
    ];
    for (ext, program, subcommand) in cases {
        for platform in [Platform::Posix, Platform::Windows] {
            let (p, args) = command(platform, ext, "/tmp/a b");
            assert_eq!(p, program);
            assert_eq!(args, strings(&[subcommand, "/tmp/a b"]));
        }
    }
}

#[test]
fn powershell_bypasses_the_execution_policy() {
    let (p, args) = command(Platform::Windows, "ps1", "C:\\s.ps1");
    assert_eq!(p, "powershell");
    assert_eq!(
        args,
        strings(&["-ExecutionPolicy", "Bypass", "-File", "C:\\s.ps1"])
    );
}

#[test]
fn compiled_languages_on_posix() {
    assert_eq!(
        command(Platform::Posix, "rs", "/tmp/a.rs"),
        (
            "sh".to_string(),
            strings(&["-c", "rustc '/tmp/a.rs' -o main && ./main"])
        )
    );
    assert_eq!(
        command(Platform::Posix, "c", "/tmp/a.c"),
        (
            "sh".to_string(),
            strings(&["-c", "gcc '/tmp/a.c' -o main && ./main"])
        )
    );
    for ext in ["cpp", "cc", "cxx"] {
        assert_eq!(
            command(Platform::Posix, ext, "/tmp/my prog.cpp"),
            (
                "sh".to_string(),
                strings(&["-c", "g++ '/tmp/my prog.cpp' -o main && ./main"])
            )
        );
    }
}

#[test]
fn compiled_languages_on_windows() {
    assert_eq!(
        command(Platform::Windows, "rs", "C:\\src\\a.rs"),
        (
            "cmd".to_string(),
            strings(&["/C", "rustc C:\\src\\a.rs -o main && main.exe"])
        )
    );
    assert_eq!(
        command(Platform::Windows, "c", "C:\\my src\\a.c"),
        (
            "cmd".to_string(),
            strings(&["/C", "gcc \"C:\\my src\\a.c\" -o main && main.exe"])
        )
    );
    assert_eq!(
        command(Platform::Windows, "cxx", "a.cxx"),
        (
            "cmd".to_string(),
            strings(&["/C", "g++ a.cxx -o main && main.exe"])
        )
    );
}

#[test]
fn java_runs_the_class_named_after_the_file() {
    assert_eq!(
        command(Platform::Posix, "java", "/home/me/Hello.java"),
        (
            "sh".to_string(),
            strings(&["-c", "javac '/home/me/Hello.java' && java Hello"])
        )
    );
    assert_eq!(
        command(Platform::Windows, "java", "C:\\src\\Hello World.java"),
        (
            "cmd".to_string(),
            strings(&["/C", "javac \"C:\\src\\Hello World.java\" && java Hello World"])
        )
    );
}

#[test]
fn java_class_names() {
    assert_eq!(java_class(Platform::Posix, "/a/b/Hello.java"), "Hello");
    assert_eq!(java_class(Platform::Posix, "Hello.java"), "Hello");
    assert_eq!(java_class(Platform::Posix, "a.b.java"), "a.b");
    assert_eq!(java_class(Platform::Posix, "/a/Hello"), "Hello");
    assert_eq!(java_class(Platform::Posix, "/a.b/Hello"), "Hello");
    assert_eq!(java_class(Platform::Posix, ""), "Main");
    assert_eq!(java_class(Platform::Posix, "/"), "Main");
    assert_eq!(java_class(Platform::Posix, "/a/"), "a");
    assert_eq!(java_class(Platform::Posix, "/a/Hello.java/"), "Hello");
    assert_eq!(java_class(Platform::Windows, "C:Hello.java"), "Hello");
    assert_eq!(java_class(Platform::Posix, ".java"), "Main");
    assert_eq!(java_class(Platform::Posix, "/a/.."), "Main");
    assert_eq!(java_class(Platform::Posix, "."), "Main");
    assert_eq!(java_class(Platform::Posix, "C:\\src\\Hello.java"), "C:\\src\\Hello");
    assert_eq!(java_class(Platform::Windows, "C:\\src\\Hello.java"), "Hello");
    assert_eq!(java_class(Platform::Windows, "C:/src/Hello.java"), "Hello");
}

#[test]
fn kotlin_builds_a_jar() {
    for ext in ["kt", "kts"] {
        assert_eq!(
            command(Platform::Posix, ext, "/tmp/a.kt"),
            (
                "sh".to_string(),
                strings(&[
                    "-c",
                    "kotlinc '/tmp/a.kt' -include-runtime -d main.jar && java -jar main.jar"
                ])
            )
        );
        assert_eq!(
            command(Platform::Windows, ext, "a.kt"),
            (
                "cmd".to_string(),
                strings(&[
                    "/C",
                    "kotlinc a.kt -include-runtime -d main.jar && java -jar main.jar"
                ])
            )
        );
    }
}

#[test]
fn nim_and_d_compile_and_run_in_one_step() {
    assert_eq!(
        command(Platform::Posix, "nim", "/tmp/a.nim"),
        ("sh".to_string(), strings(&["-c", "nim c -r '/tmp/a.nim'"]))
    );
    assert_eq!(
        command(Platform::Windows, "nim", "a b.nim"),
        ("cmd".to_string(), strings(&["/C", "nim c -r \"a b.nim\""]))
    );
    assert_eq!(
        command(Platform::Posix, "d", "/tmp/a.d"),
        ("sh".to_string(), strings(&["-c", "dmd -run '/tmp/a.d'"]))
    );
    assert_eq!(
        command(Platform::Windows, "d", "a.d"),
        ("cmd".to_string(), strings(&["/C", "dmd -run a.d"]))
    );
}

#[test]
fn posix_escaping() {
    assert_eq!(escape_for_shell(Platform::Posix, "/tmp/a.rs"), "'/tmp/a.rs'");
    assert_eq!(escape_for_shell(Platform::Posix, ""), "''");
    assert_eq!(escape_for_shell(Platform::Posix, "it's"), "'it'\\''s'");
    assert_eq!(escape_for_shell(Platform::Posix, "'"), "''\\'''");
    assert_eq!(escape_for_shell(Platform::Posix, "''"), "''\\'''\\'''");
    assert_eq!(
        escape_for_shell(Platform::Posix, "a b; rm -rf $HOME `x` \"y\" \\"),
        "'a b; rm -rf $HOME `x` \"y\" \\'"
    );
}

fn read_by_posix_shell(word: &str) -> Option<String> {
    let chars: Vec<char> = word.chars().collect();
    let mut out = String::new();
    let mut quoted = false;
    let mut i = 0;
    while i < chars.len() {
        let c = chars[i];
        if quoted {
            if c == '\'' {
                quoted = false;
            } else {
                out.push(c);
            }
            i += 1;
        } else if c == '\'' {
            quoted = true;
            i += 1;
        } else if c == '\\' && i + 1 < chars.len() && chars[i + 1] != '\n' {
            out.push(chars[i + 1]);
            i += 2;
        } else {
            return None;
        }
    }
    if quoted {
        None
    } else {
        Some(out)
    }
}

#[test]
fn posix_escaping_reads_back_as_the_path() {
    for path in [
        "it's",
        "'",
        "''''",
        "a'b'c",
        "/tmp/o'brien's file.py",
        "'; rm -rf / #",
        "plain",
        "",
        "back\\slash'quote",
        "new\nline'",
    ] {
        let word = escape_for_shell(Platform::Posix, path);
        assert_eq!(read_by_posix_shell(&word), Some(path.to_string()));
    }
}

#[test]
fn windows_escaping() {
    assert_eq!(escape_for_shell(Platform::Windows, "C:\\a.rs"), "C:\\a.rs");
    assert_eq!(
        escape_for_shell(Platform::Windows, "C:\\my files\\a.rs"),
        "\"C:\\my files\\a.rs\""
    );
    assert_eq!(escape_for_shell(Platform::Windows, "it's"), "it's");
    assert_eq!(escape_for_shell(Platform::Windows, " "), "\" \"");
    assert_eq!(escape_for_shell(Platform::Windows, ""), "");
}

#[test]
fn built_programs() {
    assert_eq!(bin(Platform::Windows, "main"), "main.exe");
    assert_eq!(bin(Platform::Posix, "main"), "./main");
}

#[test]
fn display_quotes_arguments_with_spaces() {
    let spec = CommandSpec::new(
        "python".to_string(),
        strings(&["/tmp/hello world.py"]),
    );
    assert_eq!(spec.display_string(), "python \"/tmp/hello world.py\"");

    let spec = CommandSpec::new("go".to_string(), strings(&["run", "/tmp/a.go"]));
    assert_eq!(spec.display_string(), "go run /tmp/a.go");

    let spec = CommandSpec::new("node".to_string(), Vec::new());
    assert_eq!(spec.display_string(), "node");

    let spec = CommandSpec::new(
        "x".to_string(),
        strings(&["\"already quoted\"", "", " ", "a b", "\"half"]),
    );
    assert_eq!(
        spec.display_string(),
        "x \"already quoted\"  \" \" \"a b\" \"half"
    );

    let spec = CommandSpec::new("my tool".to_string(), strings(&["a"]));
    assert_eq!(spec.display_string(), "my tool a");
}

#[test]
fn display_of_a_shell_command() {
    let spec = get_command_on(Platform::Posix, "rs", "/tmp/a.rs").unwrap();
    assert_eq!(
        spec.display_string(),
        "sh -c \"rustc '/tmp/a.rs' -o main && ./main\""
    );
}

#[test]
fn new_keeps_its_arguments() {
    let spec = CommandSpec::new("a".to_string(), strings(&["b", "c"]));
    assert_eq!(spec.program, "a");
    assert_eq!(spec.args, strings(&["b", "c"]));
}

#[test]
fn host_command_is_that_of_the_host_platform() {
    let platform = Platform::host();
    for ext in EXTENSIONS {
        let on_host = get_command(ext, "/tmp/a b").unwrap();
        let explicit = get_command_on(platform, ext, "/tmp/a b").unwrap();
        assert_eq!(on_host.program, explicit.program);
        assert_eq!(on_host.args, explicit.args);
    }
}
