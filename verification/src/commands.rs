//! From a file's extension to the command that runs the file.
//!
//! The table of extensions is [`recipe_of`]; the shape of each command is
//! [`Recipe::command_model`]. Languages that are compiled first get one shell
//! command line that compiles and then runs, with the path quoted for the
//! platform's shell by [`escape_for_shell`].
use vstd::prelude::*;
use crate::platform::{final_segment, final_segment_of, Platform};
use crate::text::{chars_of, find_last, has_char, is_text, lemma_last_index_of, string_of_range};
use crate::utils::stem;

verus! {

/// One process to start: a program and its arguments.
#[derive(Clone, Debug)]
pub struct CommandSpec {
    pub program: String,
    pub args: Vec<String>,
}

/// A [`CommandSpec`] with its texts as sequences of characters.
pub struct CommandModel {
    pub program: Seq<char>,
    pub args: Seq<Seq<char>>,
}

/// The texts of a list of strings.
pub open spec fn texts(strings: Seq<String>) -> Seq<Seq<char>> {
    Seq::new(strings.len(), |i: int| strings[i]@)
}

impl View for CommandSpec {
    type V = CommandModel;

    open spec fn view(&self) -> CommandModel {
        CommandModel { program: self.program@, args: texts(self.args@) }
    }
}

/// The parts, with one space between each two.
pub open spec fn joined(parts: Seq<Seq<char>>) -> Seq<char>
    decreases parts.len(),
{
    if parts.len() == 0 {
        Seq::empty()
    } else if parts.len() == 1 {
        parts[0]
    } else {
        joined(parts.drop_last()) + seq![' '] + parts.last()
    }
}

/// How an argument is shown: in double quotes where it holds a space and
/// does not already start with a double quote.
pub open spec fn shown(arg: Seq<char>) -> Seq<char> {
    if arg.contains(' ') && !(arg.len() > 0 && arg[0] == '"') {
        seq!['"'] + arg + seq!['"']
    } else {
        arg
    }
}

impl CommandModel {
    /// The command as one line for a reader: the program, then each argument
    /// as [`shown`]. The line is for display only, no shell is meant to read
    /// it.
    pub open spec fn display(self) -> Seq<char> {
        joined(seq![self.program] + self.args.map_values(|arg: Seq<char>| shown(arg)))
    }
}

impl CommandSpec {
    pub fn new(program: String, args: Vec<String>) -> (spec: Self)
        ensures
            spec.program == program,
            spec.args == args,
    {
        CommandSpec { program, args }
    }

    /// The command as one line for a reader.
    pub fn display_string(&self) -> (line: String)
        ensures
            line@ == self@.display(),
    {
        let ghost parts = seq![self@.program] + self@.args.map_values(
            |arg: Seq<char>| shown(arg),
        );
        let mut line = self.program.clone();
        let mut i: usize = 0;
        proof {
            assert(parts.take(1) == seq![self@.program]);
        }
        while i < self.args.len()
            invariant
                i <= self.args.len(),
                parts == seq![self@.program] + self@.args.map_values(|arg: Seq<char>| shown(arg)),
                line@ == joined(parts.take(i + 1)),
            decreases self.args.len() - i,
        {
            let arg = chars_of(self.args[i].as_str());
            let quote = has_char(&arg, ' ') && !(arg.len() > 0 && arg[0] == '"');
            line.push(' ');
            if quote {
                line.push('"');
            }
            line.append(self.args[i].as_str());
            if quote {
                line.push('"');
            }
            proof {
                let next = parts.take(i + 2);
                assert(next.drop_last() == parts.take(i + 1));
                assert(next.last() == shown(self.args@[i as int]@));
            }
            i = i + 1;
        }
        proof {
            assert(parts.take(i + 1) == parts);
        }
        line
    }
}

/// How the files of one language are run.
#[derive(Clone, Copy, Debug)]
pub enum Recipe {
    /// The interpreter is called with the path: `python file.py`.
    Interpreter { program: &'static str },
    /// A tool is called with a subcommand and the path: `go run file.go`.
    Tool { program: &'static str, subcommand: &'static str },
    /// PowerShell is told to run the script whatever the execution policy.
    PowerShell,
    /// The compiler builds the program `main`, which is then run.
    Compiled { compiler: &'static str },
    /// `javac` compiles, then `java` runs the class named after the file.
    Java,
    /// `kotlinc` builds `main.jar`, which `java` then runs.
    Kotlin,
    /// A tool that compiles and runs in one step, called through the shell.
    ShellTool { invocation: &'static str },
}

/// The table of extensions.
pub open spec fn recipe_of(ext: Seq<char>) -> Option<Recipe> {
    if ext == "js"@ {
        Some(Recipe::Interpreter { program: "node" })
    } else if ext == "ts"@ {
        Some(Recipe::Tool { program: "npx", subcommand: "tsx" })
    } else if ext == "py"@ {
        Some(Recipe::Interpreter { program: "python" })
    } else if ext == "go"@ {
        Some(Recipe::Tool { program: "go", subcommand: "run" })
    } else if ext == "rs"@ {
        Some(Recipe::Compiled { compiler: "rustc" })
    } else if ext == "c"@ {
        Some(Recipe::Compiled { compiler: "gcc" })
    } else if ext == "cpp"@ || ext == "cc"@ || ext == "cxx"@ {
        Some(Recipe::Compiled { compiler: "g++" })
    } else if ext == "java"@ {
        Some(Recipe::Java)
    } else if ext == "php"@ {
        Some(Recipe::Interpreter { program: "php" })
    } else if ext == "rb"@ {
        Some(Recipe::Interpreter { program: "ruby" })
    } else if ext == "sh"@ {
        Some(Recipe::Interpreter { program: "bash" })
    } else if ext == "ps1"@ {
        Some(Recipe::PowerShell)
    } else if ext == "lua"@ {
        Some(Recipe::Interpreter { program: "lua" })
    } else if ext == "pl"@ {
        Some(Recipe::Interpreter { program: "perl" })
    } else if ext == "r"@ {
        Some(Recipe::Interpreter { program: "Rscript" })
    } else if ext == "swift"@ {
        Some(Recipe::Interpreter { program: "swift" })
    } else if ext == "dart"@ {
        Some(Recipe::Tool { program: "dart", subcommand: "run" })
    } else if ext == "zig"@ {
        Some(Recipe::Tool { program: "zig", subcommand: "run" })
    } else if ext == "hs"@ {
        Some(Recipe::Interpreter { program: "runhaskell" })
    } else if ext == "jl"@ {
        Some(Recipe::Interpreter { program: "julia" })
    } else if ext == "ex"@ || ext == "exs"@ {
        Some(Recipe::Interpreter { program: "elixir" })
    } else if ext == "cr"@ {
        Some(Recipe::Tool { program: "crystal", subcommand: "run" })
    } else if ext == "scala"@ {
        Some(Recipe::Interpreter { program: "scala" })
    } else if ext == "groovy"@ {
        Some(Recipe::Interpreter { program: "groovy" })
    } else if ext == "clj"@ {
        Some(Recipe::Interpreter { program: "clojure" })
    } else if ext == "rkt"@ {
        Some(Recipe::Interpreter { program: "racket" })
    } else if ext == "ml"@ {
        Some(Recipe::Interpreter { program: "ocaml" })
    } else if ext == "erl"@ {
        Some(Recipe::Interpreter { program: "escript" })
    } else if ext == "tcl"@ {
        Some(Recipe::Interpreter { program: "tclsh" })
    } else if ext == "kt"@ || ext == "kts"@ {
        Some(Recipe::Kotlin)
    } else if ext == "nim"@ {
        Some(Recipe::ShellTool { invocation: "nim c -r" })
    } else if ext == "d"@ {
        Some(Recipe::ShellTool { invocation: "dmd -run" })
    } else if ext == "fs"@ || ext == "fsx"@ {
        Some(Recipe::Tool { program: "dotnet", subcommand: "fsi" })
    } else if ext == "cs"@ {
        Some(Recipe::Tool { program: "dotnet", subcommand: "script" })
    } else {
        None
    }
}

/// The extensions that the table has an entry for.
pub open spec fn is_supported(ext: Seq<char>) -> bool {
    ||| ext == "js"@
    ||| ext == "ts"@
    ||| ext == "py"@
    ||| ext == "go"@
    ||| ext == "rs"@
    ||| ext == "c"@
    ||| ext == "cpp"@
    ||| ext == "cc"@
    ||| ext == "cxx"@
    ||| ext == "java"@
    ||| ext == "php"@
    ||| ext == "rb"@
    ||| ext == "sh"@
    ||| ext == "ps1"@
    ||| ext == "lua"@
    ||| ext == "pl"@
    ||| ext == "r"@
    ||| ext == "swift"@
    ||| ext == "dart"@
    ||| ext == "zig"@
    ||| ext == "hs"@
    ||| ext == "jl"@
    ||| ext == "ex"@
    ||| ext == "exs"@
    ||| ext == "cr"@
    ||| ext == "scala"@
    ||| ext == "groovy"@
    ||| ext == "clj"@
    ||| ext == "rkt"@
    ||| ext == "ml"@
    ||| ext == "erl"@
    ||| ext == "tcl"@
    ||| ext == "kt"@
    ||| ext == "kts"@
    ||| ext == "nim"@
    ||| ext == "d"@
    ||| ext == "fs"@
    ||| ext == "fsx"@
    ||| ext == "cs"@
}

/// What a character becomes between single quotes: itself, but a single
/// quote closes the quotes, stands escaped, and opens them again.
pub open spec fn quoted_char(c: char) -> Seq<char> {
    if c == '\'' {
        "'\\''"@
    } else {
        seq![c]
    }
}

/// The characters of `path` as they stand between single quotes.
pub open spec fn quoted_body(path: Seq<char>) -> Seq<char>
    decreases path.len(),
{
    if path.len() == 0 {
        Seq::empty()
    } else {
        quoted_body(path.drop_last()) + quoted_char(path.last())
    }
}

/// A path as it is written into a command line for the platform's shell.
///
/// For `sh` the path stands in single quotes. For `cmd` it stands in double
/// quotes where it holds a space, and bare where it holds none.
pub open spec fn escaped(platform: Platform, path: Seq<char>) -> Seq<char> {
    match platform {
        Platform::Posix => "'"@ + quoted_body(path) + "'"@,
        Platform::Windows => if path.contains(' ') {
            "\""@ + path + "\""@
        } else {
            path
        },
    }
}

/// The class that `java` is asked to run: the stem of the path's final
/// component, or `Main` where that component is `..` or has an empty stem.
pub open spec fn class_name(platform: Platform, path: Seq<char>) -> Seq<char> {
    let name = final_segment(platform, path);
    if name == ".."@ || stem(name).len() == 0 {
        "Main"@
    } else {
        stem(name)
    }
}

/// A command that hands one command line to the platform's shell.
pub open spec fn shell_command(platform: Platform, line: Seq<char>) -> CommandModel {
    CommandModel { program: platform.shell(), args: seq![platform.shell_flag(), line] }
}

impl Recipe {
    /// The command that runs the file at `path` on `platform`.
    pub open spec fn command_model(self, platform: Platform, path: Seq<char>) -> CommandModel {
        match self {
            Recipe::Interpreter { program } => CommandModel { program: program@, args: seq![path] },
            Recipe::Tool { program, subcommand } => CommandModel {
                program: program@,
                args: seq![subcommand@, path],
            },
            Recipe::PowerShell => CommandModel {
                program: "powershell"@,
                args: seq!["-ExecutionPolicy"@, "Bypass"@, "-File"@, path],
            },
            Recipe::Compiled { compiler } => shell_command(
                platform,
                compiler@ + " "@ + escaped(platform, path) + " -o main && "@
                    + platform.built_program("main"@),
            ),
            Recipe::Java => shell_command(
                platform,
                "javac "@ + escaped(platform, path) + " && java "@ + class_name(platform, path),
            ),
            Recipe::Kotlin => shell_command(
                platform,
                "kotlinc "@ + escaped(platform, path)
                    + " -include-runtime -d main.jar && java -jar main.jar"@,
            ),
            Recipe::ShellTool { invocation } => shell_command(
                platform,
                invocation@ + " "@ + escaped(platform, path),
            ),
        }
    }
}

/// The command that runs a file with extension `ext` at `path`, if the table
/// has an entry for `ext`.
pub open spec fn command_for(platform: Platform, ext: Seq<char>, path: Seq<char>) -> Option<
    CommandModel,
> {
    match recipe_of(ext) {
        Some(recipe) => Some(recipe.command_model(platform, path)),
        None => None,
    }
}

/// The model of a command that may be missing.
pub open spec fn command_view(cmd: Option<CommandSpec>) -> Option<CommandModel> {
    match cmd {
        Some(spec) => Some(spec@),
        None => None,
    }
}

/// The command line that runs the program `name` from the current directory.
pub fn bin(platform: Platform, name: &str) -> (line: String)
    ensures
        line@ == platform.built_program(name@),
{
    match platform {
        Platform::Windows => {
            let mut line = String::from_str(name);
            line.append(".exe");
            line
        },
        Platform::Posix => {
            let mut line = String::from_str("./");
            line.append(name);
            line
        },
    }
}

/// The path as it is written into a command line for the platform's shell.
pub fn escape_for_shell(platform: Platform, path: &str) -> (word: String)
    ensures
        word@ == escaped(platform, path@),
{
    let v = chars_of(path);
    match platform {
        Platform::Windows => {
            if has_char(&v, ' ') {
                let mut word = String::from_str("\"");
                word.append(path);
                word.append("\"");
                word
            } else {
                String::from_str(path)
            }
        },
        Platform::Posix => {
            let mut word = String::from_str("'");
            let mut i: usize = 0;
            proof {
                assert(v@.take(0) == Seq::<char>::empty());
            }
            while i < v.len()
                invariant
                    i <= v.len(),
                    word@ == "'"@ + quoted_body(v@.take(i as int)),
                decreases v.len() - i,
            {
                proof {
                    let next = v@.take(i + 1);
                    assert(next.drop_last() == v@.take(i as int));
                    assert(next.last() == v@[i as int]);
                }
                if v[i] == '\'' {
                    word.append("'\\''");
                } else {
                    word.push(v[i]);
                }
                i = i + 1;
            }
            proof {
                assert(v@.take(i as int) == v@);
            }
            word.append("'");
            word
        },
    }
}

/// The class that `java` is asked to run for the file at `path`.
pub fn java_class(platform: Platform, path: &str) -> (class: String)
    ensures
        class@ == class_name(platform, path@),
{
    let name = final_segment_of(platform, path);
    let end = match find_last(&name, '.') {
        Some(dot) => dot,
        None => name.len(),
    };
    proof {
        lemma_last_index_of(name@, '.');
        assert(name@.take(name.len() as int) == name@);
    }
    if is_text(&name, "..") || end == 0 {
        String::from_str("Main")
    } else {
        let class = string_of_range(&name, 0, end);
        assert(name@.subrange(0, end as int) == name@.take(end as int));
        class
    }
}

/// The command that hands `line` to the platform's shell.
fn shell(platform: Platform, line: String) -> (cmd: CommandSpec)
    ensures
        cmd@ == shell_command(platform, line@),
{
    let mut args: Vec<String> = Vec::new();
    args.push(String::from_str(platform.shell_command_flag()));
    args.push(line);
    let cmd = CommandSpec::new(String::from_str(platform.shell_program()), args);
    assert(cmd@.args == seq![platform.shell_flag(), line@]);
    cmd
}

impl Recipe {
    /// The command that runs the file at `path` on `platform`.
    pub fn command(self, platform: Platform, path: &str) -> (cmd: CommandSpec)
        ensures
            cmd@ == self.command_model(platform, path@),
    {
        match self {
            Recipe::Interpreter { program } => {
                let mut args: Vec<String> = Vec::new();
                args.push(String::from_str(path));
                let cmd = CommandSpec::new(String::from_str(program), args);
                assert(cmd@.args == seq![path@]);
                cmd
            },
            Recipe::Tool { program, subcommand } => {
                let mut args: Vec<String> = Vec::new();
                args.push(String::from_str(subcommand));
                args.push(String::from_str(path));
                let cmd = CommandSpec::new(String::from_str(program), args);
                assert(cmd@.args == seq![subcommand@, path@]);
                cmd
            },
            Recipe::PowerShell => {
                let mut args: Vec<String> = Vec::new();
                args.push(String::from_str("-ExecutionPolicy"));
                args.push(String::from_str("Bypass"));
                args.push(String::from_str("-File"));
                args.push(String::from_str(path));
                let cmd = CommandSpec::new(String::from_str("powershell"), args);
                assert(cmd@.args == seq!["-ExecutionPolicy"@, "Bypass"@, "-File"@, path@]);
                cmd
            },
            Recipe::Compiled { compiler } => {
                let mut line = String::from_str(compiler);
                line.append(" ");
                line.append(escape_for_shell(platform, path).as_str());
                line.append(" -o main && ");
                line.append(bin(platform, "main").as_str());
                shell(platform, line)
            },
            Recipe::Java => {
                let mut line = String::from_str("javac ");
                line.append(escape_for_shell(platform, path).as_str());
                line.append(" && java ");
                line.append(java_class(platform, path).as_str());
                shell(platform, line)
            },
            Recipe::Kotlin => {
                let mut line = String::from_str("kotlinc ");
                line.append(escape_for_shell(platform, path).as_str());
                line.append(" -include-runtime -d main.jar && java -jar main.jar");
                shell(platform, line)
            },
            Recipe::ShellTool { invocation } => {
                let mut line = String::from_str(invocation);
                line.append(" ");
                line.append(escape_for_shell(platform, path).as_str());
                shell(platform, line)
            },
        }
    }
}

/// The table's entry for an extension.
pub fn recipe_for(ext: &str) -> (recipe: Option<Recipe>)
    ensures
        recipe == recipe_of(ext@),
{
    let e = chars_of(ext);
    if is_text(&e, "js") {
        Some(Recipe::Interpreter { program: "node" })
    } else if is_text(&e, "ts") {
        Some(Recipe::Tool { program: "npx", subcommand: "tsx" })
    } else if is_text(&e, "py") {
        Some(Recipe::Interpreter { program: "python" })
    } else if is_text(&e, "go") {
        Some(Recipe::Tool { program: "go", subcommand: "run" })
    } else if is_text(&e, "rs") {
        Some(Recipe::Compiled { compiler: "rustc" })
    } else if is_text(&e, "c") {
        Some(Recipe::Compiled { compiler: "gcc" })
    } else if is_text(&e, "cpp") || is_text(&e, "cc") || is_text(&e, "cxx") {
        Some(Recipe::Compiled { compiler: "g++" })
    } else if is_text(&e, "java") {
        Some(Recipe::Java)
    } else if is_text(&e, "php") {
        Some(Recipe::Interpreter { program: "php" })
    } else if is_text(&e, "rb") {
        Some(Recipe::Interpreter { program: "ruby" })
    } else if is_text(&e, "sh") {
        Some(Recipe::Interpreter { program: "bash" })
    } else if is_text(&e, "ps1") {
        Some(Recipe::PowerShell)
    } else if is_text(&e, "lua") {
        Some(Recipe::Interpreter { program: "lua" })
    } else if is_text(&e, "pl") {
        Some(Recipe::Interpreter { program: "perl" })
    } else if is_text(&e, "r") {
        Some(Recipe::Interpreter { program: "Rscript" })
    } else if is_text(&e, "swift") {
        Some(Recipe::Interpreter { program: "swift" })
    } else if is_text(&e, "dart") {
        Some(Recipe::Tool { program: "dart", subcommand: "run" })
    } else if is_text(&e, "zig") {
        Some(Recipe::Tool { program: "zig", subcommand: "run" })
    } else if is_text(&e, "hs") {
        Some(Recipe::Interpreter { program: "runhaskell" })
    } else if is_text(&e, "jl") {
        Some(Recipe::Interpreter { program: "julia" })
    } else if is_text(&e, "ex") || is_text(&e, "exs") {
        Some(Recipe::Interpreter { program: "elixir" })
    } else if is_text(&e, "cr") {
        Some(Recipe::Tool { program: "crystal", subcommand: "run" })
    } else if is_text(&e, "scala") {
        Some(Recipe::Interpreter { program: "scala" })
    } else if is_text(&e, "groovy") {
        Some(Recipe::Interpreter { program: "groovy" })
    } else if is_text(&e, "clj") {
        Some(Recipe::Interpreter { program: "clojure" })
    } else if is_text(&e, "rkt") {
        Some(Recipe::Interpreter { program: "racket" })
    } else if is_text(&e, "ml") {
        Some(Recipe::Interpreter { program: "ocaml" })
    } else if is_text(&e, "erl") {
        Some(Recipe::Interpreter { program: "escript" })
    } else if is_text(&e, "tcl") {
        Some(Recipe::Interpreter { program: "tclsh" })
    } else if is_text(&e, "kt") || is_text(&e, "kts") {
        Some(Recipe::Kotlin)
    } else if is_text(&e, "nim") {
        Some(Recipe::ShellTool { invocation: "nim c -r" })
    } else if is_text(&e, "d") {
        Some(Recipe::ShellTool { invocation: "dmd -run" })
    } else if is_text(&e, "fs") || is_text(&e, "fsx") {
        Some(Recipe::Tool { program: "dotnet", subcommand: "fsi" })
    } else if is_text(&e, "cs") {
        Some(Recipe::Tool { program: "dotnet", subcommand: "script" })
    } else {
        None
    }
}

/// The command that runs a file with extension `ext` at `file_path` on
/// `platform`, or `None` where the table has no entry for `ext`.
pub fn get_command_on(platform: Platform, ext: &str, file_path: &str) -> (cmd: Option<
    CommandSpec,
>)
    ensures
        command_view(cmd) == command_for(platform, ext@, file_path@),
{
    match recipe_for(ext) {
        Some(recipe) => Some(recipe.command(platform, file_path)),
        None => None,
    }
}

/// The command that runs a file with extension `ext` at `file_path` on the
/// host, or `None` where the table has no entry for `ext`.
///
/// Which platform the host is shows only at run time, so the contract says
/// what holds on either; [`get_command_on`] is exact.
pub fn get_command(ext: &str, file_path: &str) -> (cmd: Option<CommandSpec>)
    ensures
        cmd is Some <==> is_supported(ext@),
        cmd matches Some(spec) ==> spec@.program.len() > 0,
        command_view(cmd) == command_for(Platform::Windows, ext@, file_path@) || command_view(cmd)
            == command_for(Platform::Posix, ext@, file_path@),
{
    let platform = Platform::host();
    proof {
        lemma_command_table(platform, ext@, file_path@);
    }
    get_command_on(platform, ext, file_path)
}

/// Every extension of the table has a command, whose program is not empty;
/// no other extension has one.
pub proof fn lemma_command_table(platform: Platform, ext: Seq<char>, path: Seq<char>)
    ensures
        command_for(platform, ext, path) is Some <==> is_supported(ext),
        command_for(platform, ext, path) matches Some(cmd) ==> cmd.program.len() > 0,
{
    match recipe_of(ext) {
        Some(recipe) => {
            lemma_program_not_empty(recipe, platform, path);
        },
        None => {},
    }
}

/// The program of a table entry's command is not empty.
proof fn lemma_program_not_empty(recipe: Recipe, platform: Platform, path: Seq<char>)
    requires
        exists|ext: Seq<char>| recipe_of(ext) == Some(recipe),
    ensures
        recipe.command_model(platform, path).program.len() > 0,
{
    reveal_strlit("cmd");
    reveal_strlit("sh");
    reveal_strlit("powershell");
    reveal_strlit("node");
    reveal_strlit("npx");
    reveal_strlit("python");
    reveal_strlit("go");
    reveal_strlit("php");
    reveal_strlit("ruby");
    reveal_strlit("bash");
    reveal_strlit("lua");
    reveal_strlit("perl");
    reveal_strlit("Rscript");
    reveal_strlit("swift");
    reveal_strlit("dart");
    reveal_strlit("zig");
    reveal_strlit("runhaskell");
    reveal_strlit("julia");
    reveal_strlit("elixir");
    reveal_strlit("crystal");
    reveal_strlit("scala");
    reveal_strlit("groovy");
    reveal_strlit("clojure");
    reveal_strlit("racket");
    reveal_strlit("ocaml");
    reveal_strlit("escript");
    reveal_strlit("tclsh");
    reveal_strlit("dotnet");
}

/// The word that a POSIX shell reads from `text`, where `text` starts
/// between single quotes: every character stands for itself up to the
/// closing quote. `None` where the quotes are never closed.
pub open spec fn shell_word_quoted(text: Seq<char>) -> Option<Seq<char>>
    decreases text.len(), 0nat,
{
    if text.len() == 0 {
        None
    } else if text[0] == '\'' {
        shell_word(text.drop_first())
    } else {
        match shell_word_quoted(text.drop_first()) {
            Some(rest) => Some(seq![text[0]] + rest),
            None => None,
        }
    }
}

/// The word that a POSIX shell reads from `text`, where `text` is made of
/// parts in single quotes and of characters escaped by a backslash, and of
/// nothing else. `None` for any other text: one that holds a bare character,
/// which the shell might take for a separator or an operator, or a backslash
/// before a line break, or quotes that are never closed.
pub open spec fn shell_word(text: Seq<char>) -> Option<Seq<char>>
    decreases text.len(), 1nat,
{
    if text.len() == 0 {
        Some(Seq::empty())
    } else if text[0] == '\'' {
        shell_word_quoted(text.drop_first())
    } else if text[0] == '\\' && text.len() >= 2 && text[1] != '\n' {
        match shell_word(text.skip(2)) {
            Some(rest) => Some(seq![text[1]] + rest),
            None => None,
        }
    } else {
        None
    }
}

/// Between single quotes, a character's quoted form followed by more text is
/// read as the character followed by what the rest is read as.
proof fn lemma_quoted_char_read(c: char, rest: Seq<char>)
    ensures
        shell_word_quoted(quoted_char(c) + rest) == match shell_word_quoted(rest) {
            Some(word) => Some(seq![c] + word),
            None => None,
        },
{
    let text = quoted_char(c) + rest;
    if c == '\'' {
        reveal_strlit("'\\''");
        // The quote closes the quotes; outside them, the backslash escapes
        // the next quote; the last quote opens the quotes again.
        let outside = text.drop_first();
        let reopening = outside.skip(2);
        assert(outside[0] == '\\' && outside[1] == '\'');
        assert(reopening[0] == '\'');
        assert(reopening.drop_first() == rest);
        assert(shell_word(reopening) == shell_word_quoted(rest));
        assert(shell_word(outside) == match shell_word(reopening) {
            Some(word) => Some(seq![c] + word),
            None => None,
        });
        assert(shell_word_quoted(text) == shell_word(outside));
    } else {
        assert(text.drop_first() == rest);
    }
}

/// Between single quotes, the quoted form of `path` followed by more text is
/// read as `path` followed by what the rest is read as.
proof fn lemma_quoted_body_read(path: Seq<char>, rest: Seq<char>)
    ensures
        shell_word_quoted(quoted_body(path) + rest) == match shell_word_quoted(rest) {
            Some(word) => Some(path + word),
            None => None,
        },
    decreases path.len(),
{
    if path.len() == 0 {
        assert(quoted_body(path) + rest == rest);
        if let Some(word) = shell_word_quoted(rest) {
            assert(path + word == word);
        }
    } else {
        let front = path.drop_last();
        let tail = quoted_char(path.last()) + rest;
        assert(quoted_body(path) + rest == quoted_body(front) + tail);
        lemma_quoted_char_read(path.last(), rest);
        lemma_quoted_body_read(front, tail);
        if let Some(word) = shell_word_quoted(rest) {
            assert(front + (seq![path.last()] + word) == path + word);
        }
    }
}

/// A POSIX shell reads the escaped form of any path as exactly that path, in
/// one word.
pub proof fn lemma_posix_escape_round_trip(path: Seq<char>)
    ensures
        shell_word(escaped(Platform::Posix, path)) == Some(path),
{
    reveal_strlit("'");
    let close = "'"@;
    let word = escaped(Platform::Posix, path);
    assert(word.drop_first() == quoted_body(path) + close);
    assert(close.drop_first() == Seq::<char>::empty());
    assert(shell_word(close.drop_first()) == Some(Seq::<char>::empty()));
    assert(shell_word_quoted(close) == Some(Seq::<char>::empty()));
    lemma_quoted_body_read(path, close);
    assert(path + Seq::<char>::empty() == path);
}

} // verus!
