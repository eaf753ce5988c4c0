//! Executable resolution: from a command as the caller wrote it to the
//! executable and arguments that are handed to the operating system.
//!
//! On POSIX the command is passed through unchanged. On Windows an absolute
//! command runs directly when it is an existing native executable, and a
//! relative one is looked up by its file name in the directories of the search
//! path; whatever is not found as a native executable runs through the script
//! interpreter.
//!
//! Whether a file exists is for the caller to find out. [`Resolver`] asks one
//! question at a time and is told the answer; the result that it reaches is
//! the one that [`resolve_of`] gives for the file system that answered.

use vstd::prelude::*;
use crate::path::{
    absolute, extension, extension_of, file_name, file_name_of, force_extension,
    force_extension_of, is_absolute, join, join_of, with_extension, with_extension_of, Platform,
};
use crate::search_path::{entries_of, split_search_path};
use crate::text::{clone_texts, texts};

verus! {

/// How a located command is run.
#[derive(Clone, Copy, Debug, PartialEq, Eq, Structural)]
pub enum CommandKind {
    /// A native executable, started as it is.
    Direct,
    /// A script, started through the interpreter.
    Scripted,
}

/// The executable and arguments that are handed to the operating system.
#[derive(Debug)]
pub struct ResolvedCommand {
    pub executable: String,
    pub args: Vec<String>,
}

/// A resolved command as plain text.
pub struct ResolvedText {
    pub executable: Seq<char>,
    pub args: Seq<Seq<char>>,
}

impl View for ResolvedCommand {
    type V = ResolvedText;

    open spec fn view(&self) -> ResolvedText {
        ResolvedText { executable: self.executable@, args: texts(self.args@) }
    }
}

/// A command found on the file system, or guessed where none was found.
pub struct Located {
    pub kind: CommandKind,
    pub path: Seq<char>,
}

/// What is known of the file system: whether a file exists at a path.
pub type FileSystem = spec_fn(Seq<char>) -> bool;

/// Extension of a native executable.
pub open spec fn native_ext() -> Seq<char> {
    "exe"@
}

/// Extension of a script.
pub open spec fn script_ext() -> Seq<char> {
    "ps1"@
}

/// The program that runs scripts.
pub open spec fn interpreter() -> Seq<char> {
    "powershell"@
}

/// The native executable that `name` may be in `dir`.
pub open spec fn native_candidate(dir: Seq<char>, name: Seq<char>) -> Seq<char> {
    with_extension_of(Platform::Windows, join_of(Platform::Windows, dir, name), native_ext())
}

/// The script that `name` may be in `dir`.
pub open spec fn script_candidate(dir: Seq<char>, name: Seq<char>) -> Seq<char> {
    force_extension_of(Platform::Windows, join_of(Platform::Windows, dir, name), script_ext())
}

/// The script that `command` is taken for where nothing else was found.
pub open spec fn fallback(command: Seq<char>) -> Located {
    Located {
        kind: CommandKind::Scripted,
        path: force_extension_of(Platform::Windows, command, script_ext()),
    }
}

/// The first match for `name` in `dirs[from..]`: directories in order, and in
/// each the native executable before the script.
pub open spec fn search_from(
    dirs: Seq<Seq<char>>,
    name: Seq<char>,
    fs: FileSystem,
    from: int,
) -> Option<Located>
    decreases dirs.len() - from,
{
    if from < 0 || from >= dirs.len() {
        None
    } else if fs(native_candidate(dirs[from], name)) {
        Some(Located { kind: CommandKind::Direct, path: native_candidate(dirs[from], name) })
    } else if fs(script_candidate(dirs[from], name)) {
        Some(Located { kind: CommandKind::Scripted, path: script_candidate(dirs[from], name) })
    } else {
        search_from(dirs, name, fs, from + 1)
    }
}

/// The directories in which a relative `command` is looked up: those of the
/// search path, or none where the command has no file name or no search path
/// is set.
pub open spec fn search_dirs(command: Seq<char>, search_path: Option<Seq<char>>) -> Seq<
    Seq<char>,
> {
    match search_path {
        Some(text) if file_name_of(Platform::Windows, command) is Some => entries_of(text),
        _ => Seq::empty(),
    }
}

/// Where `command` is found on Windows.
pub open spec fn locate(
    command: Seq<char>,
    search_path: Option<Seq<char>>,
    fs: FileSystem,
) -> Located {
    if absolute(Platform::Windows, command) {
        if extension_of(Platform::Windows, command) == Some(native_ext()) && fs(command) {
            Located { kind: CommandKind::Direct, path: command }
        } else {
            fallback(command)
        }
    } else {
        match search_from(
            search_dirs(command, search_path),
            file_name_of(Platform::Windows, command).unwrap_or(Seq::empty()),
            fs,
            0,
        ) {
            Some(found) => found,
            None => fallback(command),
        }
    }
}

/// The arguments with which the interpreter runs the script at `path`.
pub open spec fn script_args(path: Seq<char>, args: Seq<Seq<char>>) -> Seq<Seq<char>> {
    seq!["-ExecutionPolicy"@, "RemoteSigned"@, "-File"@, path] + args
}

/// The invocation that runs a located command with the caller's arguments.
pub open spec fn invocation_of(located: Located, args: Seq<Seq<char>>) -> ResolvedText {
    match located.kind {
        CommandKind::Direct => ResolvedText { executable: located.path, args },
        CommandKind::Scripted => ResolvedText {
            executable: interpreter(),
            args: script_args(located.path, args),
        },
    }
}

/// The invocation that `command` with `args` resolves to on `platform`, given
/// the search path and the file system.
pub open spec fn resolve_of(
    platform: Platform,
    command: Seq<char>,
    args: Seq<Seq<char>>,
    search_path: Option<Seq<char>>,
    fs: FileSystem,
) -> ResolvedText {
    match platform {
        Platform::Posix => ResolvedText { executable: command, args },
        Platform::Windows => invocation_of(locate(command, search_path, fs), args),
    }
}

/// The view of an optional string slice.
pub open spec fn opt_str(value: Option<&str>) -> Option<Seq<char>> {
    match value {
        Some(s) => Some(s@),
        None => None,
    }
}

/// The first directory that holds either candidate decides the search, and in
/// it the native executable is preferred to the script.
pub proof fn lemma_first_directory_wins(
    dirs: Seq<Seq<char>>,
    name: Seq<char>,
    fs: FileSystem,
    from: int,
    hit: int,
)
    requires
        0 <= from <= hit < dirs.len(),
        forall|j: int|
            from <= j < hit ==> !fs(#[trigger] native_candidate(dirs[j], name)) && !fs(
                script_candidate(dirs[j], name),
            ),
        fs(native_candidate(dirs[hit], name)) || fs(script_candidate(dirs[hit], name)),
    ensures
        search_from(dirs, name, fs, from) == Some(
            if fs(native_candidate(dirs[hit], name)) {
                Located { kind: CommandKind::Direct, path: native_candidate(dirs[hit], name) }
            } else {
                Located { kind: CommandKind::Scripted, path: script_candidate(dirs[hit], name) }
            },
        ),
    decreases hit - from,
{
    if from < hit {
        assert(!fs(native_candidate(dirs[from], name)));
        lemma_first_directory_wins(dirs, name, fs, from + 1, hit);
    }
}

/// The search finds nothing exactly when no directory holds either candidate.
pub proof fn lemma_search_finds_nothing(
    dirs: Seq<Seq<char>>,
    name: Seq<char>,
    fs: FileSystem,
    from: int,
)
    requires
        0 <= from,
    ensures
        search_from(dirs, name, fs, from) is None <==> forall|j: int|
            from <= j < dirs.len() ==> !fs(#[trigger] native_candidate(dirs[j], name))
                && !fs(script_candidate(dirs[j], name)),
    decreases dirs.len() - from,
{
    if from < dirs.len() {
        lemma_search_finds_nothing(dirs, name, fs, from + 1);
        if fs(native_candidate(dirs[from], name)) || fs(
            script_candidate(dirs[from], name),
        ) {
        } else {
            assert forall|j: int| from <= j < dirs.len() && search_from(
                dirs,
                name,
                fs,
                from + 1,
            ) is None implies !fs(#[trigger] native_candidate(dirs[j], name)) && !fs(
                script_candidate(dirs[j], name),
            ) by {
                if j > from {
                }
            }
        }
    }
}

/// Directories are tried in order: a script in an earlier directory is
/// preferred to a native executable in a later one.
pub proof fn lemma_earlier_directory_has_priority(
    dirs: Seq<Seq<char>>,
    name: Seq<char>,
    fs: FileSystem,
    early: int,
    late: int,
)
    requires
        0 <= early < late < dirs.len(),
        forall|j: int|
            0 <= j < early ==> !fs(#[trigger] native_candidate(dirs[j], name)) && !fs(
                script_candidate(dirs[j], name),
            ),
        !fs(native_candidate(dirs[early], name)),
        fs(script_candidate(dirs[early], name)),
        fs(native_candidate(dirs[late], name)),
    ensures
        search_from(dirs, name, fs, 0) == Some(
            Located { kind: CommandKind::Scripted, path: script_candidate(dirs[early], name) },
        ),
{
    lemma_first_directory_wins(dirs, name, fs, 0, early);
}

/// The question that a resolution has open.
pub enum Asking {
    /// Whether the absolute command itself exists.
    Absolute,
    /// Whether the native candidate in the directory of this index exists.
    Native(int),
    /// Whether the script candidate in the directory of this index exists.
    Script(int),
    /// None: the command is resolved to this.
    Nothing(ResolvedText),
}

/// A resolution under way: what is being resolved, where it is looked up,
/// and the question that is open.
pub struct Resolution {
    pub command: Seq<char>,
    pub args: Seq<Seq<char>>,
    pub dirs: Seq<Seq<char>>,
    pub name: Seq<char>,
    pub asking: Asking,
}

impl Resolution {
    /// The resolution of `command` with `args` on `platform` before any
    /// question is answered.
    pub open spec fn start(
        platform: Platform,
        command: Seq<char>,
        args: Seq<Seq<char>>,
        search_path: Option<Seq<char>>,
    ) -> Resolution {
        let dirs = if platform == Platform::Windows && !absolute(platform, command) {
            search_dirs(command, search_path)
        } else {
            Seq::empty()
        };
        let name = if dirs.len() > 0 {
            file_name_of(Platform::Windows, command).unwrap_or(Seq::empty())
        } else {
            Seq::empty()
        };
        let asking = match platform {
            Platform::Posix => Asking::Nothing(ResolvedText { executable: command, args }),
            Platform::Windows => if absolute(platform, command) {
                if extension_of(platform, command) == Some(native_ext()) {
                    Asking::Absolute
                } else {
                    Asking::Nothing(invocation_of(fallback(command), args))
                }
            } else if dirs.len() > 0 {
                Asking::Native(0)
            } else {
                Asking::Nothing(invocation_of(fallback(command), args))
            },
        };
        Resolution { command, args, dirs, name, asking }
    }

    /// Whether the open question is about a directory that there is.
    pub open spec fn well_formed(self) -> bool {
        match self.asking {
            Asking::Native(i) => 0 <= i < self.dirs.len(),
            Asking::Script(i) => 0 <= i < self.dirs.len(),
            _ => true,
        }
    }

    /// The path whose existence is asked about, if any is.
    pub open spec fn pending(self) -> Option<Seq<char>> {
        match self.asking {
            Asking::Absolute => Some(self.command),
            Asking::Native(i) => Some(native_candidate(self.dirs[i], self.name)),
            Asking::Script(i) => Some(script_candidate(self.dirs[i], self.name)),
            Asking::Nothing(_) => None,
        }
    }

    /// The resolution once the open question is answered: `found` says
    /// whether the file exists. Without an open question nothing changes.
    pub open spec fn after(self, found: bool) -> Resolution {
        let direct = |path: Seq<char>|
            Asking::Nothing(invocation_of(Located { kind: CommandKind::Direct, path }, self.args));
        let given_up = Asking::Nothing(invocation_of(fallback(self.command), self.args));
        let asking = match self.asking {
            Asking::Absolute => if found {
                direct(self.command)
            } else {
                given_up
            },
            Asking::Native(i) => if found {
                direct(native_candidate(self.dirs[i], self.name))
            } else {
                Asking::Script(i)
            },
            Asking::Script(i) => if found {
                Asking::Nothing(
                    invocation_of(
                        Located {
                            kind: CommandKind::Scripted,
                            path: script_candidate(self.dirs[i], self.name),
                        },
                        self.args,
                    ),
                )
            } else if i + 1 < self.dirs.len() {
                Asking::Native(i + 1)
            } else {
                given_up
            },
            Asking::Nothing(resolved) => Asking::Nothing(resolved),
        };
        Resolution { asking, ..self }
    }

    /// An upper bound on the questions that are still asked.
    pub open spec fn remaining(self) -> nat {
        match self.asking {
            Asking::Absolute => 1,
            Asking::Native(i) => (2 * (self.dirs.len() - i)) as nat,
            Asking::Script(i) => (2 * (self.dirs.len() - i) - 1) as nat,
            Asking::Nothing(_) => 0,
        }
    }

    /// The command that the resolution ends with when every question is
    /// answered as the file system `fs` has it.
    pub open spec fn outcome(self, fs: FileSystem) -> ResolvedText
        decreases self.remaining(),
    {
        match self.asking {
            Asking::Nothing(resolved) => resolved,
            _ => if self.well_formed() {
                self.after(fs(self.pending().unwrap())).outcome(fs)
            } else {
                arbitrary()
            },
        }
    }
}

/// The search that is left when the question about directory `from` is the
/// next one ends as the resolution does.
proof fn lemma_outcome_is_the_search(r: Resolution, fs: FileSystem)
    requires
        r.well_formed(),
    ensures
        r.asking matches Asking::Native(i) ==> r.outcome(fs) == (match search_from(
            r.dirs,
            r.name,
            fs,
            i,
        ) {
            Some(found) => invocation_of(found, r.args),
            None => invocation_of(fallback(r.command), r.args),
        }),
    decreases r.remaining(),
{
    if let Asking::Native(i) = r.asking {
        let native = native_candidate(r.dirs[i], r.name);
        let script = script_candidate(r.dirs[i], r.name);
        let second = r.after(fs(native));
        assert(r.outcome(fs) == second.outcome(fs));
        if fs(native) {
        } else {
            let third = second.after(fs(script));
            assert(second.outcome(fs) == third.outcome(fs));
            if fs(script) {
            } else if i + 1 < r.dirs.len() {
                lemma_outcome_is_the_search(third, fs);
            } else {
            }
        }
    }
}

/// A resolution that answers every question as the file system has it ends
/// with the command that `resolve_of` gives, and it asks no more questions
/// than twice the number of directories on the search path, or one for an
/// absolute command.
pub proof fn lemma_resolution_is_resolve_of(
    platform: Platform,
    command: Seq<char>,
    args: Seq<Seq<char>>,
    search_path: Option<Seq<char>>,
    fs: FileSystem,
)
    ensures
        Resolution::start(platform, command, args, search_path).well_formed(),
        Resolution::start(platform, command, args, search_path).outcome(fs) == resolve_of(
            platform,
            command,
            args,
            search_path,
            fs,
        ),
        Resolution::start(platform, command, args, search_path).remaining() <= if absolute(
            platform,
            command,
        ) {
            1
        } else {
            2 * search_dirs(command, search_path).len()
        },
        platform == Platform::Posix ==> Resolution::start(
            platform,
            command,
            args,
            search_path,
        ).pending() is None,
{
    let r = Resolution::start(platform, command, args, search_path);
    match r.asking {
        Asking::Absolute => {
            assert(r.outcome(fs) == r.after(fs(command)).outcome(fs));
        },
        Asking::Native(_) => {
            lemma_outcome_is_the_search(r, fs);
        },
        _ => {},
    }
}

/// An answer that agrees with the file system changes nothing about where the
/// resolution ends, and brings the end nearer.
pub proof fn lemma_answer_keeps_outcome(r: Resolution, fs: FileSystem)
    requires
        r.well_formed(),
        r.pending() is Some,
    ensures
        r.after(fs(r.pending().unwrap())).well_formed(),
        r.after(fs(r.pending().unwrap())).outcome(fs) == r.outcome(fs),
        r.after(fs(r.pending().unwrap())).remaining() < r.remaining(),
{
}

/// What the resolver waits for.
enum Phase {
    Absolute,
    Native(usize),
    Script(usize),
    Done(ResolvedCommand),
}

/// What the caller of a [`Resolver`] does next.
#[derive(Debug)]
pub enum Step {
    /// Find out whether a file exists at this path, and answer.
    Probe(String),
    /// Run this command.
    Done(ResolvedCommand),
}

/// Resolution of one command, one question about the file system at a time.
pub struct Resolver {
    command: String,
    args: Vec<String>,
    dirs: Vec<String>,
    name: String,
    phase: Phase,
}

impl ResolvedCommand {
    /// A copy of the command.
    pub fn duplicate(&self) -> (out: ResolvedCommand)
        ensures
            out.executable == self.executable,
            out.args@ == self.args@,
            out@ == self@,
    {
        ResolvedCommand { executable: self.executable.clone(), args: clone_texts(&self.args) }
    }
}

fn direct(path: String, args: &Vec<String>) -> (out: ResolvedCommand)
    ensures
        out@ == invocation_of(Located { kind: CommandKind::Direct, path: path@ }, texts(args@)),
{
    ResolvedCommand { executable: path, args: clone_texts(args) }
}

fn scripted(path: String, args: &Vec<String>) -> (out: ResolvedCommand)
    ensures
        out@ == invocation_of(Located { kind: CommandKind::Scripted, path: path@ }, texts(args@)),
{
    let mut all: Vec<String> = Vec::new();
    all.push(String::from_str("-ExecutionPolicy"));
    all.push(String::from_str("RemoteSigned"));
    all.push(String::from_str("-File"));
    all.push(path);
    let ghost head = texts(all@);
    assert(head =~= seq!["-ExecutionPolicy"@, "RemoteSigned"@, "-File"@, path@]);
    let mut i: usize = 0;
    while i < args.len()
        invariant
            i <= args.len(),
            texts(all@) == head + texts(args@).take(i as int),
        decreases args.len() - i,
    {
        let ghost before = texts(all@);
        all.push(args[i].clone());
        assert(texts(all@) =~= before.push(args@[i as int]@));
        assert(texts(args@).take(i + 1) =~= texts(args@).take(i as int).push(args@[i as int]@));
        i = i + 1;
    }
    assert(texts(args@).take(args.len() as int) =~= texts(args@));
    ResolvedCommand { executable: String::from_str("powershell"), args: all }
}

fn scripted_fallback(command: &str, args: &Vec<String>) -> (out: ResolvedCommand)
    ensures
        out@ == invocation_of(fallback(command@), texts(args@)),
{
    scripted(force_extension(Platform::Windows, command, "ps1"), args)
}

impl View for Resolver {
    type V = Resolution;

    closed spec fn view(&self) -> Resolution {
        Resolution {
            command: self.command@,
            args: texts(self.args@),
            dirs: texts(self.dirs@),
            name: self.name@,
            asking: match self.phase {
                Phase::Absolute => Asking::Absolute,
                Phase::Native(i) => Asking::Native(i as int),
                Phase::Script(i) => Asking::Script(i as int),
                Phase::Done(resolved) => Asking::Nothing(resolved@),
            },
        }
    }
}

impl Resolver {
    /// A resolver that asks about a directory has that directory.
    #[verifier::type_invariant]
    spec fn well_formed(self) -> bool {
        match self.phase {
            Phase::Native(i) => i < self.dirs.len(),
            Phase::Script(i) => i < self.dirs.len(),
            _ => true,
        }
    }

    /// Begins the resolution of `command` with `args` on `platform`.
    /// `search_path` is the text of the search-path variable, where it is set.
    pub fn begin(platform: Platform, command: &str, args: Vec<String>, search_path: Option<&str>) -> (out:
        Resolver)
        ensures
            out@ == Resolution::start(platform, command@, texts(args@), opt_str(search_path)),
            out@.well_formed(),
    {
        let mut dirs: Vec<String> = Vec::new();
        let mut name = String::new();
        let phase = match platform {
            Platform::Posix => Phase::Done(
                ResolvedCommand { executable: String::from_str(command), args: clone_texts(&args) },
            ),
            Platform::Windows => {
                if is_absolute(platform, command) {
                    let native = match extension(platform, command) {
                        Some(ext) => ext == String::from_str("exe"),
                        None => false,
                    };
                    if native {
                        Phase::Absolute
                    } else {
                        Phase::Done(scripted_fallback(command, &args))
                    }
                } else {
                    match (file_name(platform, command), search_path) {
                        (Some(found), Some(text)) => {
                            name = found;
                            dirs = split_search_path(text);
                            Phase::Native(0)
                        },
                        _ => Phase::Done(scripted_fallback(command, &args)),
                    }
                }
            },
        };
        assert(texts(dirs@) =~= Resolution::start(
            platform,
            command@,
            texts(args@),
            opt_str(search_path),
        ).dirs);
        Resolver { command: String::from_str(command), args, dirs, name, phase }
    }

    /// What the caller does next: answer a question, or run the command.
    pub fn step(&self) -> (out: Step)
        ensures
            self@.well_formed(),
            match self@.asking {
                Asking::Nothing(resolved) => out matches Step::Done(command) && command@
                    == resolved,
                _ => out matches Step::Probe(path) && Some(path@) == self@.pending(),
            },
    {
        proof {
            use_type_invariant(self);
        }
        match &self.phase {
            Phase::Absolute => Step::Probe(self.command.clone()),
            Phase::Native(i) => Step::Probe(
                with_extension(
                    Platform::Windows,
                    join(Platform::Windows, self.dirs[*i].as_str(), self.name.as_str()).as_str(),
                    "exe",
                ),
            ),
            Phase::Script(i) => Step::Probe(
                force_extension(
                    Platform::Windows,
                    join(Platform::Windows, self.dirs[*i].as_str(), self.name.as_str()).as_str(),
                    "ps1",
                ),
            ),
            Phase::Done(command) => Step::Done(command.duplicate()),
        }
    }

    /// Takes the answer to the open question: whether the file exists.
    /// A resolver that asks nothing stays as it is.
    pub fn answer(self, found: bool) -> (out: Resolver)
        ensures
            out@ == self@.after(found),
            out@.well_formed(),
    {
        proof {
            use_type_invariant(&self);
        }
        let Resolver { command, args, dirs, name, phase } = self;
        let next = match phase {
            Phase::Absolute => if found {
                Phase::Done(direct(command.clone(), &args))
            } else {
                Phase::Done(scripted_fallback(command.as_str(), &args))
            },
            Phase::Native(i) => if found {
                let path = with_extension(
                    Platform::Windows,
                    join(Platform::Windows, dirs[i].as_str(), name.as_str()).as_str(),
                    "exe",
                );
                Phase::Done(direct(path, &args))
            } else {
                Phase::Script(i)
            },
            Phase::Script(i) => if found {
                let path = force_extension(
                    Platform::Windows,
                    join(Platform::Windows, dirs[i].as_str(), name.as_str()).as_str(),
                    "ps1",
                );
                Phase::Done(scripted(path, &args))
            } else if i + 1 < dirs.len() {
                Phase::Native(i + 1)
            } else {
                Phase::Done(scripted_fallback(command.as_str(), &args))
            },
            Phase::Done(resolved) => Phase::Done(resolved),
        };
        Resolver { command, args, dirs, name, phase: next }
    }
}

} // verus!
