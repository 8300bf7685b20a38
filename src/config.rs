//! Configuration of the crash reporter client: where the dump, its extra
//! file and its memory report live, where crash data is kept, and the
//! localized strings of its interface.

use vstd::prelude::*;

verus! {

/// The path `base` joined with `part`, as `std::path::Path::join` gives it
/// on the platform the crate is built for.
pub uninterp spec fn joined(base: Seq<char>, part: Seq<char>) -> Seq<char>;

/// The path `p` with its extension set to `ext`, as
/// `std::path::PathBuf::set_extension` gives it on the platform the crate
/// is built for.
pub uninterp spec fn with_extension(p: Seq<char>, ext: Seq<char>) -> Seq<char>;

/// The extension of path `p`, as `std::path::Path::extension` gives it on
/// the platform the crate is built for.
pub uninterp spec fn extension_of(p: Seq<char>) -> Option<Seq<char>>;

/// The file stem of path `p`, as `std::path::Path::file_stem` gives it on
/// the platform the crate is built for.
pub uninterp spec fn file_stem_of(p: Seq<char>) -> Option<Seq<char>>;

/// `s` with every match of `from` replaced by `to`, scanning from the left
/// and never overlapping matches.
pub open spec fn replace_all(s: Seq<char>, from: Seq<char>, to: Seq<char>) -> Seq<char>
    decreases s.len(),
{
    if from.len() == 0 || s.len() < from.len() {
        s
    } else if s.take(from.len() as int) == from {
        to + replace_all(s.skip(from.len() as int), from, to)
    } else {
        seq![s[0]] + replace_all(s.skip(1), from, to)
    }
}

/// Relies on `std::path::Path::join`: the joined path depends on the two
/// paths alone.
#[verifier::external_body]
fn path_join(base: &str, part: &str) -> (r: String)
    ensures
        r@ == joined(base@, part@),
{
    std::path::Path::new(base).join(part).to_string_lossy().into_owned()
}

/// Relies on `std::path::PathBuf::set_extension`: the new path depends on
/// the path and the extension alone. It panics on an extension that holds
/// a path separator, which is left out.
#[verifier::external_body]
fn path_set_extension(p: &str, ext: &str) -> (r: String)
    requires
        forall|i: int| 0 <= i < ext@.len() ==> ext@[i] != '/' && ext@[i] != '\\',
    ensures
        r@ == with_extension(p@, ext@),
{
    let mut path = std::path::PathBuf::from(p);
    path.set_extension(ext);
    path.to_string_lossy().into_owned()
}

/// Relies on `std::path::Path::extension`: the extension depends on the
/// path alone.
#[verifier::external_body]
fn path_extension(p: &str) -> (r: Option<String>)
    ensures
        r matches Some(e) ==> extension_of(p@) == Some(e@),
        r is None ==> extension_of(p@) is None,
{
    std::path::Path::new(p).extension().map(|e| e.to_string_lossy().into_owned())
}

/// Relies on `std::path::Path::file_stem`: the stem depends on the path
/// alone.
#[verifier::external_body]
fn path_file_stem(p: &str) -> (r: Option<String>)
    ensures
        r matches Some(e) ==> file_stem_of(p@) == Some(e@),
        r is None ==> file_stem_of(p@) is None,
{
    std::path::Path::new(p).file_stem().map(|e| e.to_string_lossy().into_owned())
}

/// Relies on `std::path::Path::exists`: whether a file is there depends on
/// the disk, so nothing is known of the answer.
#[verifier::external_body]
fn path_exists(p: &str) -> (r: bool) {
    std::path::Path::new(p).exists()
}

/// The two strings one after the other.
fn concat_str(a: &str, b: &str) -> (r: String)
    ensures
        r@ == a@ + b@,
{
    a.to_string().concat(b)
}

/// Relies on `str::replace`: every match of `from` replaced by `to`, from
/// the left, without overlaps.
#[verifier::external_body]
fn replace_str(s: &str, from: &str, to: &str) -> (r: String)
    requires
        from@.len() > 0,
    ensures
        r@ == replace_all(s@, from@, to@),
{
    s.replace(from, to)
}

/// The placeholder that stands for argument `key` in a message.
pub open spec fn placeholder(key: Seq<char>) -> Seq<char> {
    seq!['{', ' ', '$'] + key + seq![' ', '}']
}

/// A message with each argument in turn put in for its placeholder.
pub open spec fn render(pattern: Seq<char>, args: Seq<(Seq<char>, Seq<char>)>) -> Seq<char>
    decreases args.len(),
{
    if args.len() == 0 {
        pattern
    } else {
        replace_all(
            render(pattern, args.drop_last()),
            placeholder(args.last().0),
            args.last().1,
        )
    }
}

/// The views of a sequence of string pairs.
pub open spec fn pairs_view(args: Seq<(String, String)>) -> Seq<(Seq<char>, Seq<char>)> {
    args.map_values(|a: (String, String)| (a.0@, a.1@))
}

/// The message for `index`; where several have it, the last one counts.
pub open spec fn message_lookup(messages: Seq<(String, String)>, index: Seq<char>) -> Option<
    Seq<char>,
>
    decreases messages.len(),
{
    if messages.len() == 0 {
        None
    } else if messages.last().0@ == index {
        Some(messages.last().1@)
    } else {
        message_lookup(messages.drop_last(), index)
    }
}

/// The localized strings of the interface.
#[derive(Clone, Debug)]
pub struct LangStrings {
    /// Whether the language is written right to left.
    pub rtl: bool,
    /// (identifier, message) pairs; a message names its arguments as
    /// `{ $name }`.
    pub messages: Vec<(String, String)>,
}

impl LangStrings {
    /// Starts building the message `index`; an unknown message is its
    /// identifier.
    pub fn builder(&self, index: &str) -> (r: ConfigStringBuilder)
        ensures
            r.pattern@ == (match message_lookup(self.messages@, index@) {
                Some(m) => m,
                None => index@,
            }),
            r.args@.len() == 0,
    {
        let key = index.to_string();
        let mut i = self.messages.len();
        assert(self.messages@.subrange(0, i as int) == self.messages@);
        while i > 0
            invariant
                i <= self.messages@.len(),
                key@ == index@,
                message_lookup(self.messages@, index@) == message_lookup(
                    self.messages@.subrange(0, i as int),
                    index@,
                ),
            decreases i,
        {
            assert(self.messages@.subrange(0, i as int).drop_last() == self.messages@.subrange(
                0,
                i - 1,
            ));
            if self.messages[i - 1].0 == key {
                return ConfigStringBuilder { pattern: self.messages[i - 1].1.clone(), args: Vec::new() };
            }
            i = i - 1;
        }
        ConfigStringBuilder { pattern: key, args: Vec::new() }
    }
}

/// A localized message being given its arguments.
#[derive(Clone, Debug)]
pub struct ConfigStringBuilder {
    pub pattern: String,
    pub args: Vec<(String, String)>,
}

impl ConfigStringBuilder {
    /// Sets an argument of the message.
    pub fn arg(self, key: &str, value: &str) -> (r: ConfigStringBuilder)
        ensures
            r.pattern@ == self.pattern@,
            pairs_view(r.args@) == pairs_view(self.args@).push((key@, value@)),
    {
        let mut args = self.args;
        args.push((key.to_string(), value.to_string()));
        proof {
            assert(pairs_view(args@) =~= pairs_view(self.args@).push((key@, value@)));
        }
        ConfigStringBuilder { pattern: self.pattern, args }
    }

    /// The message with its arguments put in.
    pub fn get(self) -> (r: String)
        ensures
            r@ == render(self.pattern@, pairs_view(self.args@)),
    {
        let ghost pv = pairs_view(self.args@);
        let mut out = self.pattern.clone();
        let mut k: usize = 0;
        assert(pv.take(0) =~= Seq::<(Seq<char>, Seq<char>)>::empty());
        while k < self.args.len()
            invariant
                k <= self.args@.len(),
                pv == pairs_view(self.args@),
                out@ == render(self.pattern@, pv.take(k as int)),
            decreases self.args@.len() - k,
        {
            assert(pv.take(k + 1).drop_last() == pv.take(k as int));
            let open_part = concat_str("{ $", self.args[k].0.as_str());
            let token = concat_str(open_part.as_str(), " }");
            proof {
                reveal_strlit("{ $");
                reveal_strlit(" }");
                assert(token@ =~= placeholder(self.args@[k as int].0@));
            }
            out = replace_str(out.as_str(), token.as_str(), self.args[k].1.as_str());
            k = k + 1;
        }
        assert(pv.take(self.args@.len() as int) == pv);
        out
    }
}

/// The configuration of the crash reporter client.
#[derive(Clone, Debug)]
pub struct Config {
    /// Whether reports should be submitted without asking.
    pub auto_submit: bool,
    /// Whether all threads of the process should be dumped.
    pub dump_all_threads: bool,
    /// Whether to delete the dump files after submission.
    pub delete_dump: bool,
    /// Whether to run a memory test while the interface is shown.
    pub run_memtest: bool,
    /// The data directory.
    pub data_dir: Option<String>,
    /// The events directory.
    pub events_dir: Option<String>,
    /// The ping directory.
    pub ping_dir: Option<String>,
    /// The profile directory in use when the crash occurred.
    pub profile_dir: Option<String>,
    /// The dump file.
    pub dump_file: Option<String>,
    /// The application file to name when restarting the application.
    pub app_file: Option<String>,
    /// The program to run to restart the crashed process.
    pub restart_command: Option<String>,
    /// The arguments to pass when restarting the application.
    pub restart_args: Vec<String>,
    /// The address to which reports are sent.
    pub report_url: Option<String>,
    /// The localized strings to use.
    pub strings: Option<LangStrings>,
}

/// The extra file that goes with a dump file.
pub open spec fn extra_file_path(dump_file: Seq<char>) -> Seq<char> {
    with_extension(dump_file, "extra"@)
}

/// The memory report that goes with a dump file.
pub open spec fn memory_file_path(dump_file: Seq<char>) -> Seq<char> {
    with_extension(dump_file, "memory.json.gz"@)
}

/// The path of the extra file that goes with `dump_file`.
fn extra_file_for_dump_file(dump_file: &str) -> (r: String)
    ensures
        r@ == extra_file_path(dump_file@),
{
    proof {
        reveal_strlit("extra");
    }
    path_set_extension(dump_file, "extra")
}

/// The path of the memory report that goes with `dump_file`.
fn memory_file_for_dump_file(dump_file: &str) -> (r: String)
    ensures
        r@ == memory_file_path(dump_file@),
{
    proof {
        reveal_strlit("memory.json.gz");
    }
    path_set_extension(dump_file, "memory.json.gz")
}

impl Config {
    /// A configuration with no values set and every flag false.
    pub fn new() -> (r: Config)
        ensures
            !r.auto_submit && !r.dump_all_threads && !r.delete_dump && !r.run_memtest,
            r.data_dir is None && r.events_dir is None && r.ping_dir is None,
            r.profile_dir is None && r.dump_file is None && r.app_file is None,
            r.restart_command is None && r.report_url is None && r.strings is None,
            r.restart_args@.len() == 0,
    {
        Config {
            auto_submit: false,
            dump_all_threads: false,
            delete_dump: false,
            run_memtest: false,
            data_dir: None,
            events_dir: None,
            ping_dir: None,
            profile_dir: None,
            dump_file: None,
            app_file: None,
            restart_command: None,
            restart_args: Vec::new(),
            report_url: None,
            strings: None,
        }
    }

    /// Starts building the localized message `index`.
    pub fn build_string(&self, index: &str) -> (r: ConfigStringBuilder)
        requires
            self.strings is Some,
        ensures
            r.pattern@ == (match message_lookup(self.strings->Some_0.messages@, index@) {
                Some(m) => m,
                None => index@,
            }),
            r.args@.len() == 0,
    {
        match &self.strings {
            Some(s) => s.builder(index),
            None => ConfigStringBuilder { pattern: index.to_string(), args: Vec::new() },
        }
    }

    /// The localized message `index`, without arguments.
    pub fn string(&self, index: &str) -> (r: String)
        requires
            self.strings is Some,
        ensures
            r@ == (match message_lookup(self.strings->Some_0.messages@, index@) {
                Some(m) => m,
                None => index@,
            }),
    {
        let b = self.build_string(index);
        assert(pairs_view(b.args@) =~= Seq::<(Seq<char>, Seq<char>)>::empty());
        b.get()
    }

    /// Whether the configured language is written right to left.
    pub fn is_rtl(&self) -> (r: bool)
        ensures
            r == (self.strings matches Some(s) && s.rtl),
    {
        match &self.strings {
            Some(s) => s.rtl,
            None => false,
        }
    }

    /// The path of the extra file, if a dump file is set.
    pub fn extra_file(&self) -> (r: Option<String>)
        ensures
            (match self.dump_file {
                Some(d) => r matches Some(p) && p@ == extra_file_path(d@),
                None => r is None,
            }),
    {
        match &self.dump_file {
            Some(d) => Some(extra_file_for_dump_file(d.as_str())),
            None => None,
        }
    }

    /// The path of the memory report, if a dump file is set and the report
    /// is there.
    pub fn memory_file(&self) -> (r: Option<String>)
        ensures
            self.dump_file is None ==> r is None,
            r matches Some(p) ==> p@ == memory_file_path(self.dump_file->Some_0@),
    {
        match &self.dump_file {
            Some(d) => {
                let p = memory_file_for_dump_file(d.as_str());
                let present = path_exists(p.as_str());
                self.memory_file_if(present)
            },
            None => None,
        }
    }

    /// The path of the memory report, given whether it is there.
    pub fn memory_file_if(&self, present: bool) -> (r: Option<String>)
        ensures
            (match self.dump_file {
                Some(d) => if present {
                    r matches Some(p) && p@ == memory_file_path(d@)
                } else {
                    r is None
                },
                None => r is None,
            }),
    {
        match &self.dump_file {
            Some(d) => if present {
                Some(memory_file_for_dump_file(d.as_str()))
            } else {
                None
            },
            None => None,
        }
    }

    /// The data directory.
    pub fn data_dir(&self) -> (r: &str)
        requires
            self.data_dir is Some,
        ensures
            r@ == self.data_dir->Some_0@,
    {
        match &self.data_dir {
            Some(d) => d.as_str(),
            None => "",
        }
    }

    /// The dump file.
    pub fn dump_file(&self) -> (r: &str)
        requires
            self.dump_file is Some,
        ensures
            r@ == self.dump_file->Some_0@,
    {
        match &self.dump_file {
            Some(d) => d.as_str(),
            None => "",
        }
    }

    /// The id of the local dump: the dump file's name without extension,
    /// if it has one.
    pub fn local_dump_id(&self) -> (r: Option<String>)
        requires
            self.dump_file is Some,
        ensures
            (match file_stem_of(self.dump_file->Some_0@) {
                Some(s) => r matches Some(x) && x@ == s,
                None => r is None,
            }),
    {
        path_file_stem(self.dump_file())
    }

    /// The file whose presence marks `version` as past its end of life.
    pub fn version_eol_file(&self, version: &str) -> (r: String)
        requires
            self.data_dir is Some,
        ensures
            r@ == joined(self.data_dir->Some_0@, "EndOfLife"@ + version@),
    {
        let name = concat_str("EndOfLife", version);
        proof {
            reveal_strlit("EndOfLife");
        }
        path_join(self.data_dir(), name.as_str())
    }

    /// The directory that holds the ids of submitted crashes.
    pub fn submitted_crash_dir(&self) -> (r: String)
        requires
            self.data_dir is Some,
        ensures
            r@ == joined(self.data_dir->Some_0@, "submitted"@),
    {
        path_join(self.data_dir(), "submitted")
    }
}

/// The file name of `program` with the extension of the running program,
/// if that has a non-empty one.
pub open spec fn program_file_name(program: Seq<char>, exe_path: Seq<char>) -> Seq<char> {
    match extension_of(exe_path) {
        Some(ext) => if ext.len() > 0 {
            program + seq!['.'] + ext
        } else {
            program
        },
        None => program,
    }
}

/// The path of `program` in the installation directory `install_dir`,
/// given with the extension that the running program at `exe_path` has.
/// The path need not exist.
pub fn installation_program_path(program: &str, exe_path: &str, install_dir: &str) -> (r: String)
    ensures
        r@ == joined(install_dir@, program_file_name(program@, exe_path@)),
{
    let name = match path_extension(exe_path) {
        Some(ext) => if !ext.as_str().is_empty() {
            let dotted = concat_str(program, ".");
            proof {
                reveal_strlit(".");
            }
            let full = concat_str(dotted.as_str(), ext.as_str());
            assert(full@ =~= program@ + seq!['.'] + ext@);
            full
        } else {
            program.to_string()
        },
        None => program.to_string(),
    };
    path_join(install_dir, name.as_str())
}

} // verus!
