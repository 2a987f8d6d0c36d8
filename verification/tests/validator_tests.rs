use code_runner::utils::get_file_info_on;
use code_runner::validator::FileStatus;
use code_runner::{CodeRunnerError, FileInfo, Platform, Validator};

fn reason(result: Result<(), CodeRunnerError>) -> String {
    match result {
        Err(CodeRunnerError::InvalidPath(reason)) => reason,
        other => panic!("expected InvalidPath, got {:?}", other),
    }
}

fn both() -> [Validator; 2] {
    [
        Validator::for_platform(100, Platform::Posix),
        Validator::for_platform(100, Platform::Windows),
    ]
}

#[test]
fn blank_paths_are_refused() {
    for v in both() {
        assert_eq!(reason(v.validate("")), "File path cannot be empty");
        assert_eq!(reason(v.validate("   ")), "File path cannot be empty");
        assert_eq!(reason(v.validate("\t\n")), "File path cannot be empty");
    }
}

#[test]
fn directory_references_are_refused() {
    for v in both() {
        assert_eq!(reason(v.validate(".")), "Cannot run directories");
        assert_eq!(reason(v.validate("..")), "Cannot run directories");
        assert_eq!(reason(v.validate("  ..  ")), "Cannot run directories");
        assert!(v.validate("...").is_ok());
        assert!(v.validate("./a.py").is_ok());
    }
}

#[test]
fn flags_are_refused() {
    for v in both() {
        assert_eq!(
            reason(v.validate("-help")),
            "Path '-help' looks like a command flag"
        );
        assert_eq!(
            reason(v.validate("  --version ")),
            "Path '--version' looks like a command flag"
        );
        assert_eq!(reason(v.validate("-")), "Path '-' looks like a command flag");
        assert!(v.validate("a-b.py").is_ok());
    }
}

#[test]
fn nul_characters_are_refused() {
    for v in both() {
        assert_eq!(reason(v.validate("file\0.py")), "Path contains null bytes");
        assert_eq!(reason(v.validate("a.py\0")), "Path contains null bytes");
    }
}

#[test]
fn long_paths_are_refused() {
    for v in both() {
        assert_eq!(
            reason(v.validate(&"a".repeat(5000))),
            "Path is too long (max 4096 characters)"
        );
        assert_eq!(
            reason(v.validate(&"a".repeat(4097))),
            "Path is too long (max 4096 characters)"
        );
        assert!(v.validate(&"a".repeat(4096)).is_ok());
        let padded = format!("  {}  ", "a".repeat(4096));
        assert!(v.validate(&padded).is_ok());
    }
}

#[test]
fn length_is_counted_in_characters() {
    let v = Validator::for_platform(100, Platform::Posix);
    assert!(v.validate(&"é".repeat(4096)).is_ok());
    assert!(v.validate(&"é".repeat(4097)).is_err());
}

#[test]
fn the_first_failing_check_decides() {
    let v = Validator::for_platform(100, Platform::Posix);
    let flag_with_nul = "-a\0";
    assert_eq!(
        reason(v.validate(flag_with_nul)),
        "Path '-a\0' looks like a command flag"
    );
    let long_with_nul = format!("{}\0", "a".repeat(5000));
    assert_eq!(reason(v.validate(&long_with_nul)), "Path contains null bytes");
}

#[test]
fn ordinary_paths_pass() {
    for v in both() {
        assert!(v.validate("test.py").is_ok());
        assert!(v.validate("/tmp/hello world.py").is_ok());
        assert!(v.validate("  spaced.py  ").is_ok());
        assert!(v.validate("noext").is_ok());
        assert!(v.validate("console.py").is_ok());
        assert!(v.validate("com10.txt").is_ok());
        assert!(v.validate("lpt0").is_ok());
        assert!(v.validate("com").is_ok());
    }
}

#[test]
fn device_names_are_refused_on_windows() {
    let v = Validator::for_platform(100, Platform::Windows);
    assert_eq!(
        reason(v.validate("CON")),
        "'con' is a reserved filename on Windows"
    );
    assert_eq!(
        reason(v.validate("PRN.txt")),
        "'prn' is a reserved filename on Windows"
    );
    assert_eq!(
        reason(v.validate("AUX.py")),
        "'aux' is a reserved filename on Windows"
    );
    assert_eq!(
        reason(v.validate("C:\\dir\\nul.gz")),
        "'nul' is a reserved filename on Windows"
    );
    assert_eq!(
        reason(v.validate("con/")),
        "'con' is a reserved filename on Windows"
    );
    assert_eq!(
        reason(v.validate("dir\\Aux.txt\\")),
        "'aux' is a reserved filename on Windows"
    );
    assert_eq!(
        reason(v.validate("C:con")),
        "'con' is a reserved filename on Windows"
    );
    assert_eq!(
        reason(v.validate("c:PRN.log")),
        "'prn' is a reserved filename on Windows"
    );
    assert_eq!(
        reason(v.validate("dir/Com1")),
        "'com1' is a reserved filename on Windows"
    );
    assert_eq!(
        reason(v.validate("lpt9.")),
        "'lpt9' is a reserved filename on Windows"
    );
    for digit in 1..=9 {
        assert!(v.validate(&format!("com{}", digit)).is_err());
        assert!(v.validate(&format!("LPT{}.log", digit)).is_err());
    }
    assert!(v.validate("con\\file.py").is_ok());
    assert!(v.validate("aux/file.py").is_ok());
    assert!(v.validate("myaux.py").is_ok());
}

#[test]
fn only_the_extension_is_set_aside_for_device_names() {
    let v = Validator::for_platform(100, Platform::Windows);
    assert!(v.validate("con.tar.gz").is_ok());
    assert!(v.validate("C:\\dir\\nul.tar.gz").is_ok());
    assert!(v.validate("aux.backup.py").is_ok());
    assert!(v.validate("console.py").is_ok());
    assert!(v.validate("com10").is_ok());
    assert!(v.validate("con..").is_ok());
    assert!(v.validate("x.con").is_ok());
    assert!(v.validate("con.gz").is_err());
    assert!(v.validate("CON.").is_err());
    assert!(v.validate("Lpt1.TXT").is_err());
}

#[test]
fn device_names_pass_elsewhere() {
    let v = Validator::for_platform(100, Platform::Posix);
    assert!(v.validate("CON").is_ok());
    assert!(v.validate("PRN.txt").is_ok());
    assert!(v.validate("aux.py").is_ok());
    assert!(v.validate_windows_reserved("nul").is_ok());
}

#[test]
fn reserved_check_alone() {
    let v = Validator::for_platform(100, Platform::Windows);
    assert_eq!(
        reason(v.validate_windows_reserved("a/b/COM3.txt")),
        "'com3' is a reserved filename on Windows"
    );
    assert!(v.validate_windows_reserved("a/b/COM3x.txt").is_ok());
    assert!(v.validate_windows_reserved("").is_ok());
    assert!(v.validate_windows_reserved("con/x").is_ok());
    assert!(v.validate_windows_reserved("con/").is_err());
    assert!(v.validate_windows_reserved("a/b/com3.tar.gz").is_ok());
}

fn info(ext: &str, path: &str) -> FileInfo {
    FileInfo {
        ext: ext.to_string(),
        abs_path: path.to_string(),
    }
}

fn file_of(bytes: u64) -> FileStatus {
    FileStatus {
        exists: true,
        is_dir: false,
        size: Ok(bytes),
    }
}

const MB: u64 = 1024 * 1024;

#[test]
fn missing_files_are_refused() {
    let v = Validator::for_platform(100, Platform::Posix);
    let status = FileStatus {
        exists: false,
        is_dir: false,
        size: Err("No such file or directory (os error 2)".to_string()),
    };
    match v.validate_file(&info("py", "nonexistent.py"), &status) {
        Err(CodeRunnerError::FileNotFound(path)) => assert_eq!(path, "nonexistent.py"),
        other => panic!("expected FileNotFound, got {:?}", other),
    }
}

#[test]
fn directories_are_refused() {
    let v = Validator::for_platform(100, Platform::Posix);
    let status = FileStatus {
        exists: true,
        is_dir: true,
        size: Ok(4096),
    };
    match v.validate_file(&info("d", "/tmp/dir.d"), &status) {
        Err(CodeRunnerError::IsDirectory(path)) => assert_eq!(path, "/tmp/dir.d"),
        other => panic!("expected IsDirectory, got {:?}", other),
    }
}

#[test]
fn a_real_directory_is_refused() {
    let dir = tempfile::Builder::new().suffix(".py").tempdir().unwrap();
    let path = dir.path();
    let path_str = path.to_str().unwrap();
    let file_info = get_file_info_on(Platform::host(), path_str, None);
    let status = FileStatus {
        exists: path.exists(),
        is_dir: path.is_dir(),
        size: path.metadata().map(|m| m.len()).map_err(|e| e.to_string()),
    };
    let v = Validator::new(100);
    assert!(matches!(
        v.validate_file(&file_info, &status),
        Err(CodeRunnerError::IsDirectory(_))
    ));
}

#[test]
fn files_without_extension_are_refused() {
    let v = Validator::for_platform(100, Platform::Posix);
    match v.validate_file(&info("", "/tmp/noext"), &file_of(10)) {
        Err(CodeRunnerError::UnsupportedFileType(ext)) => assert_eq!(ext, ""),
        other => panic!("expected UnsupportedFileType, got {:?}", other),
    }
}

#[test]
fn unreadable_files_are_refused() {
    let v = Validator::for_platform(100, Platform::Posix);
    let status = FileStatus {
        exists: true,
        is_dir: false,
        size: Err("Permission denied (os error 13)".to_string()),
    };
    match v.validate_file(&info("py", "/tmp/a.py"), &status) {
        Err(CodeRunnerError::IoError(report)) => {
            assert_eq!(report, "Permission denied (os error 13)")
        }
        other => panic!("expected IoError, got {:?}", other),
    }
}

#[test]
fn large_files_are_refused() {
    let v = Validator::for_platform(100, Platform::Posix);
    assert!(v.validate_file(&info("py", "a.py"), &file_of(0)).is_ok());
    assert!(v.validate_file(&info("py", "a.py"), &file_of(100 * MB)).is_ok());
    assert!(v
        .validate_file(&info("py", "a.py"), &file_of(101 * MB - 1))
        .is_ok());
    match v.validate_file(&info("py", "a.py"), &file_of(101 * MB)) {
        Err(CodeRunnerError::FileTooLarge(actual, max)) => {
            assert_eq!(actual, 101);
            assert_eq!(max, 100);
        }
        other => panic!("expected FileTooLarge, got {:?}", other),
    }
    match v.validate_file(&info("py", "a.py"), &file_of(u64::MAX)) {
        Err(CodeRunnerError::FileTooLarge(actual, max)) => {
            assert_eq!(actual, u64::MAX / MB);
            assert_eq!(max, 100);
        }
        other => panic!("expected FileTooLarge, got {:?}", other),
    }
    let none = Validator::for_platform(0, Platform::Posix);
    assert!(none.validate_file(&info("py", "a.py"), &file_of(MB - 1)).is_ok());
    assert!(none.validate_file(&info("py", "a.py"), &file_of(MB)).is_err());
}

#[test]
fn file_checks_are_made_in_order() {
    let v = Validator::for_platform(1, Platform::Posix);
    let missing_dir = FileStatus {
        exists: false,
        is_dir: true,
        size: Ok(10 * MB),
    };
    assert!(matches!(
        v.validate_file(&info("", "x"), &missing_dir),
        Err(CodeRunnerError::FileNotFound(_))
    ));
    let dir = FileStatus {
        exists: true,
        is_dir: true,
        size: Ok(10 * MB),
    };
    assert!(matches!(
        v.validate_file(&info("", "x"), &dir),
        Err(CodeRunnerError::IsDirectory(_))
    ));
    assert!(matches!(
        v.validate_file(&info("", "x"), &file_of(10 * MB)),
        Err(CodeRunnerError::UnsupportedFileType(_))
    ));
}
