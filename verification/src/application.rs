//! Applications: how one is described, launched as a service and watched.
//!
//! Talking to the service manager is left to the caller, who hands in what
//! came back.
use std::collections::hash_map::DefaultHasher;
use std::hash::{Hash, Hasher};

use vstd::prelude::*;
use vstd::std_specs::hash::DefaultHasherAdditionalSpecFns;

use crate::text;

verus! {

/// Seconds that a launched application has to stay up.
pub fn default_launch_timeout() -> (r: u64)
    ensures
        r == 2,
{
    2
}

/// An application that can be launched.
#[derive(Debug)]
pub struct ApplicationConfig {
    /// Its title.
    pub title: String,
    /// Path to its box art.
    pub boxart: Option<String>,
    /// The command to run.
    pub command: Vec<String>,
    /// Commands to run before it.
    pub pre_command: Vec<Vec<String>>,
    /// Commands to run after the session.
    pub post_command: Vec<Vec<String>>,
    /// Where its output goes.
    pub stdout: Option<String>,
    /// Where its errors go.
    pub stderr: Option<String>,
    /// Seconds that it has to stay up after it was launched.
    pub launch_timeout_secs: u64,
}

impl Default for ApplicationConfig {
    fn default() -> (r: Self)
        ensures
            r.title@.len() == 0,
            r.boxart is None,
            r.command@.len() == 0,
            r.pre_command@.len() == 0,
            r.post_command@.len() == 0,
            r.stdout is None,
            r.stderr is None,
            r.launch_timeout_secs == 2,
    {
        ApplicationConfig {
            title: String::new(),
            boxart: None,
            command: Vec::new(),
            pre_command: Vec::new(),
            post_command: Vec::new(),
            stdout: None,
            stderr: None,
            launch_timeout_secs: default_launch_timeout(),
        }
    }
}

/// What was written into a hasher after a string was hashed into it.
pub uninterp spec fn written_with(written: Seq<Seq<u8>>, s: Seq<char>) -> Seq<Seq<u8>>;

/// `std::hash::Hash::hash` of a string, which feeds it to the hasher: what is
/// fed depends on the string alone.
#[verifier::external_body]
fn hash_text(s: &str, hasher: &mut DefaultHasher)
    ensures
        final(hasher)@ == written_with(old(hasher)@, s@),
{
    s.hash(hasher)
}

/// The hash of a title, by a hasher with fixed keys.
pub open spec fn hash_of(title: Seq<char>) -> u64 {
    DefaultHasher::spec_finish(written_with(Seq::empty(), title))
}

/// The hash of a title; see [`hash_of`].
fn hash_title(title: &str) -> (r: u64)
    ensures
        r == hash_of(title@),
{
    let mut hasher = DefaultHasher::new();
    hash_text(title, &mut hasher);
    hasher.finish()
}

/// The number of an application with the title of this hash.
pub open spec fn id_of(hash: u64) -> i32 {
    hash as i32
}

/// The number of an application with the title of this hash; see [`id_of`].
pub fn id_from_hash(hash: u64) -> (r: i32)
    ensures
        r == id_of(hash),
{
    #[verifier::truncate]
    let r: i32 = hash as i32;
    r
}

impl ApplicationConfig {
    /// The number by which clients know it, which goes by its title alone.
    pub fn id(&self) -> (r: i32)
        ensures
            r == id_of(hash_of(self.title@)),
    {
        id_from_hash(hash_title(self.title.as_str()))
    }
}

/// What an application is told of its session.
#[derive(Debug)]
pub struct ApplicationContext {
    /// Name of its service.
    pub unit_name: String,
    /// Path to the audio socket.
    pub pulse_socket_path: String,
    /// Number of the X11 display.
    pub xdisplay: u32,
    /// Name of the Wayland socket.
    pub wayland_display: String,
    /// Colours go beyond the standard range.
    pub hdr: bool,
    /// More variables, names and values.
    pub extra_env: Vec<(String, String)>,
}

/// A variable and its value.
pub open spec fn assignment(pair: (String, String)) -> Seq<char> {
    pair.0@ + "="@ + pair.1@
}

/// The directory that a path lies in.
pub uninterp spec fn parent_of(path: Seq<char>) -> Option<Seq<char>>;

/// `std::path::Path::parent`, the path without its last component. There is
/// none for a root and for the empty path.
#[verifier::external_body]
fn parent(path: &str) -> (r: Option<String>)
    ensures
        match r {
            Some(directory) => parent_of(path@) == Some(directory@) && path@.len() > 0,
            None => parent_of(path@) is None,
        },
{
    std::path::Path::new(path).parent().map(|p| p.to_string_lossy().into_owned())
}

impl ApplicationContext {
    /// The environment of the application, where its audio socket lies in
    /// `directory`.
    pub open spec fn environment(self, directory: Seq<char>) -> Seq<Seq<char>> {
        seq![
            "PULSE_SERVER=unix:"@ + self.pulse_socket_path@,
            "PULSE_RUNTIME_PATH="@ + directory,
            "DISPLAY=:"@ + text::decimal(self.xdisplay as nat),
            "WAYLAND_DISPLAY="@ + self.wayland_display@,
            "MOONSHINE_WAYLAND_DISPLAY="@ + self.wayland_display@,
            "ENABLE_MOONSHINE_WSI=1"@,
        ] + (if self.hdr {
            seq!["DXVK_HDR=1"@, "MOONSHINE_HDR=1"@]
        } else {
            Seq::<Seq<char>>::empty()
        }) + self.extra_env@.map_values(|p: (String, String)| assignment(p))
    }
}

/// The environment of the application, where its audio socket lies in
/// `directory`; see [`ApplicationContext::environment`].
pub fn list_envs(context: &ApplicationContext, directory: &str) -> (envs: Vec<String>)
    ensures
        text::texts(envs@) == context.environment(directory@),
{
    let mut envs: Vec<String> = Vec::new();
    envs.push(text::joined("PULSE_SERVER=unix:", context.pulse_socket_path.as_str()));
    envs.push(text::joined("PULSE_RUNTIME_PATH=", directory));
    let display = text::decimal_string(context.xdisplay as u64);
    envs.push(text::joined("DISPLAY=:", display.as_str()));
    envs.push(text::joined("WAYLAND_DISPLAY=", context.wayland_display.as_str()));
    envs.push(text::joined("MOONSHINE_WAYLAND_DISPLAY=", context.wayland_display.as_str()));
    envs.push("ENABLE_MOONSHINE_WSI=1".to_owned());
    if context.hdr {
        envs.push("DXVK_HDR=1".to_owned());
        envs.push("MOONSHINE_HDR=1".to_owned());
    }
    let ghost base = text::texts(envs@);
    let ghost pair = |p: (String, String)| assignment(p);
    let extra = &context.extra_env;
    let mut i: usize = 0;
    while i < extra.len()
        invariant
            i <= extra@.len(),
            pair == (|p: (String, String)| assignment(p)),
            text::texts(envs@) == base + extra@.take(i as int).map_values(pair),
        decreases extra@.len() - i,
    {
        let mut line = text::joined(extra[i].0.as_str(), "=");
        line.append(extra[i].1.as_str());
        let ghost before = text::texts(envs@);
        envs.push(line);
        proof {
            assert(text::texts(envs@) == before.push(line@));
            assert(extra@.take(i + 1).map_values(pair) == extra@.take(i as int).map_values(pair).push(
                assignment(extra@[i as int]),
            ));
        }
        i = i + 1;
    }
    assert(extra@.take(extra@.len() as int) == extra@);
    assert(text::texts(envs@) == context.environment(directory@));
    envs
}

/// The environment of the application; an error where its audio socket lies in
/// no directory.
pub fn make_envs(context: &ApplicationContext) -> (r: Result<Vec<String>, ()>)
    ensures
        match r {
            Ok(envs) => parent_of(context.pulse_socket_path@) matches Some(directory)
                && text::texts(envs@) == context.environment(directory),
            Err(_) => parent_of(context.pulse_socket_path@) is None,
        },
{
    match parent(context.pulse_socket_path.as_str()) {
        Some(directory) => Ok(list_envs(context, directory.as_str())),
        None => Err(()),
    }
}

/// A command as the service manager takes it.
#[derive(Debug)]
pub struct ExecEntry {
    /// The program's absolute path.
    pub path: String,
    /// The arguments, the path first.
    pub argv: Vec<String>,
    /// A failure does not matter.
    pub ignore_errors: bool,
}

impl ExecEntry {
    /// It runs the program at `path` with `args`, and failures matter.
    pub open spec fn runs(self, path: Seq<char>, args: Seq<Seq<char>>) -> bool {
        &&& self.path@ == path
        &&& text::texts(self.argv@) == seq![path] + args
        &&& !self.ignore_errors
    }
}

/// The command to run the program that was found at `path` with `args`;
/// nothing where it was not found.
pub fn build_exec_entry(path: Option<String>, args: &[String]) -> (r: Option<ExecEntry>)
    ensures
        r is Some <==> path is Some,
        r matches Some(e) ==> e.runs(path->0@, text::texts(args@)),
{
    let path = match path {
        Some(path) => path,
        None => return None,
    };
    let mut argv: Vec<String> = Vec::new();
    argv.push(path.clone());
    let mut i: usize = 0;
    while i < args.len()
        invariant
            i <= args@.len(),
            argv@ == seq![path] + args@.take(i as int),
        decreases args@.len() - i,
    {
        argv.push(args[i].clone());
        i = i + 1;
        assert(args@.take(i as int) == args@.take(i - 1).push(args@[i - 1]));
    }
    assert(args@.take(args@.len() as int) == args@);
    assert(text::texts(argv@) == seq![path@] + text::texts(args@));
    Some(ExecEntry { path, argv, ignore_errors: false })
}

/// A command that was looked up: its words, and where its program was found.
#[derive(Debug)]
pub struct FoundCommand {
    /// The words of the command, the program first.
    pub words: Vec<String>,
    /// Where the program was found, if it was.
    pub path: Option<String>,
}

/// The commands that can be run: those with a program that was found.
pub open spec fn runnable() -> spec_fn(FoundCommand) -> bool {
    |c: FoundCommand| c.words@.len() > 0 && c.path is Some
}

/// `entries` run `commands`, one each.
pub open spec fn entries_run(entries: Seq<ExecEntry>, commands: Seq<FoundCommand>) -> bool {
    &&& entries.len() == commands.len()
    &&& forall|i: int|
        #![trigger entries[i]]
        0 <= i < entries.len() ==> entries[i].runs(
            commands[i].path->0@,
            text::texts(commands[i].words@.skip(1)),
        )
}

/// The commands as the service manager takes them; those that are empty or
/// whose program was not found are left out.
pub fn build_exec_entries(commands: &[FoundCommand]) -> (r: Vec<ExecEntry>)
    ensures
        entries_run(r@, commands@.filter(runnable())),
{
    let mut r: Vec<ExecEntry> = Vec::new();
    let mut i: usize = 0;
    proof {
        reveal(Seq::filter);
    }
    while i < commands.len()
        invariant
            i <= commands@.len(),
            entries_run(r@, commands@.take(i as int).filter(runnable())),
        decreases commands@.len() - i,
    {
        let command = &commands[i];
        proof {
            reveal(Seq::filter);
            assert(commands@.take(i + 1).drop_last() == commands@.take(i as int));
        }
        if command.words.len() > 0 {
            if let Some(path) = &command.path {
                let mut args: Vec<String> = Vec::new();
                let mut j: usize = 1;
                while j < command.words.len()
                    invariant
                        1 <= j <= command.words@.len(),
                        args@ == command.words@.subrange(1, j as int),
                    decreases command.words@.len() - j,
                {
                    args.push(command.words[j].clone());
                    j = j + 1;
                    assert(command.words@.subrange(1, j as int) == command.words@.subrange(1, j - 1).push(
                        command.words@[j - 1],
                    ));
                }
                assert(args@ == command.words@.skip(1));
                let ghost before = r@;
                if let Some(entry) = build_exec_entry(Some(path.clone()), args.as_slice()) {
                    r.push(entry);
                }
                proof {
                    let now = commands@.take(i + 1).filter(runnable());
                    let old_list = commands@.take(i as int).filter(runnable());
                    assert(now == old_list.push(*command));
                    assert forall|k: int| #![trigger r@[k]] 0 <= k < r@.len() implies r@[k].runs(
                        now[k].path->0@,
                        text::texts(now[k].words@.skip(1)),
                    ) by {
                        if k < before.len() {
                            assert(r@[k] == before[k]);
                            assert(now[k] == old_list[k]);
                        }
                    }
                }
            }
        }
        i = i + 1;
    }
    assert(commands@.take(commands@.len() as int) == commands@);
    r
}

/// A value of a service's property.
#[derive(Debug)]
pub enum PropertyValue {
    /// A text.
    Text(String),
    /// Some texts.
    Texts(Vec<String>),
    /// A number.
    Number(u64),
    /// Some commands.
    Commands(Vec<ExecEntry>),
}

/// A property of a service.
#[derive(Debug)]
pub struct Property {
    /// Its name.
    pub name: String,
    /// Its value.
    pub value: PropertyValue,
}

impl Property {
    /// It is this text.
    pub open spec fn is_text(self, name: Seq<char>, value: Seq<char>) -> bool {
        self.name@ == name && (self.value matches PropertyValue::Text(t) && t@ == value)
    }

    /// It is these commands.
    pub open spec fn is_commands(self, name: Seq<char>, value: Seq<ExecEntry>) -> bool {
        self.name@ == name && (self.value matches PropertyValue::Commands(c) && c@ == value)
    }
}

/// Text as a property.
fn text_property(name: &str, value: &str) -> (r: Property)
    ensures
        r.is_text(name@, value@),
{
    Property { name: name.to_owned(), value: PropertyValue::Text(value.to_owned()) }
}

/// Where output goes: nowhere, if nothing is set.
pub open spec fn output_of(setting: Option<String>) -> Seq<char> {
    match setting {
        Some(s) => s@,
        None => "null"@,
    }
}

/// The value of a setting for output; see [`output_of`].
fn output_setting(setting: &Option<String>) -> (r: &str)
    ensures
        r@ == output_of(*setting),
{
    match setting {
        Some(s) => s.as_str(),
        None => "null",
    }
}

/// The properties of the service that runs an application. Commands before and
/// after it are named only where there are any.
pub fn service_properties(
    envs: Vec<String>,
    main: ExecEntry,
    pre: Vec<ExecEntry>,
    post: Vec<ExecEntry>,
    stdout: &Option<String>,
    stderr: &Option<String>,
) -> (r: Vec<Property>)
    ensures
        r@.len() == 8 + (if pre@.len() > 0 {
            1int
        } else {
            0
        }) + (if post@.len() > 0 {
            1int
        } else {
            0
        }),
        r@[0].is_text("Type"@, "exec"@),
        r@[1].is_text("Slice"@, "moonshine.slice"@),
        r@[2].name@ == "Environment"@ && r@[2].value == PropertyValue::Texts(envs),
        r@[3].is_commands("ExecStart"@, seq![main]),
        r@[4].name@ == "TimeoutStopUSec"@ && r@[4].value == PropertyValue::Number(5_000_000),
        r@[5].is_text("CollectMode"@, "inactive-or-failed"@),
        r@[6].is_text("StandardOutput"@, output_of(*stdout)),
        r@[7].is_text("StandardError"@, output_of(*stderr)),
        pre@.len() > 0 ==> r@[8].is_commands("ExecStartPre"@, pre@),
        post@.len() > 0 ==> r@.last().is_commands("ExecStopPost"@, post@),
{
    let mut r: Vec<Property> = Vec::new();
    r.push(text_property("Type", "exec"));
    r.push(text_property("Slice", "moonshine.slice"));
    r.push(Property { name: "Environment".to_owned(), value: PropertyValue::Texts(envs) });
    let mut start: Vec<ExecEntry> = Vec::new();
    start.push(main);
    assert(start@ == seq![main]);
    r.push(Property { name: "ExecStart".to_owned(), value: PropertyValue::Commands(start) });
    r.push(Property { name: "TimeoutStopUSec".to_owned(), value: PropertyValue::Number(5_000_000) });
    r.push(text_property("CollectMode", "inactive-or-failed"));
    r.push(text_property("StandardOutput", output_setting(stdout)));
    r.push(text_property("StandardError", output_setting(stderr)));
    if pre.len() > 0 {
        r.push(Property { name: "ExecStartPre".to_owned(), value: PropertyValue::Commands(pre) });
    }
    if post.len() > 0 {
        r.push(Property { name: "ExecStopPost".to_owned(), value: PropertyValue::Commands(post) });
    }
    r
}

/// The program of an application and its arguments; nothing where the command
/// is empty.
pub fn program_of(config: &ApplicationConfig) -> (r: Option<(String, Vec<String>)>)
    ensures
        match r {
            Some((program, args)) => {
                &&& config.command@.len() > 0
                &&& program == config.command@[0]
                &&& args@ == config.command@.skip(1)
            },
            None => config.command@.len() == 0,
        },
{
    if config.command.len() == 0 {
        return None;
    }
    let mut args: Vec<String> = Vec::new();
    let mut i: usize = 1;
    while i < config.command.len()
        invariant
            1 <= i <= config.command@.len(),
            args@ == config.command@.subrange(1, i as int),
        decreases config.command@.len() - i,
    {
        args.push(config.command[i].clone());
        i = i + 1;
        assert(config.command@.subrange(1, i as int) == config.command@.subrange(1, i - 1).push(
            config.command@[i - 1],
        ));
    }
    assert(config.command@.subrange(1, config.command@.len() as int) == config.command@.skip(1));
    Some((config.command[0].clone(), args))
}

/// A state from which a service does not come back.
pub open spec fn is_terminal(state: Seq<char>) -> bool {
    state == "inactive"@ || state == "failed"@
}

/// The state, if a service does not come back from it.
pub fn terminal_state(state: &str) -> (r: Option<&'static str>)
    ensures
        match r {
            Some(s) => is_terminal(state@) && s@ == state@,
            None => !is_terminal(state@),
        },
{
    if text::same_text(state, "inactive") {
        return Some("inactive");
    }
    if text::same_text(state, "failed") {
        return Some("failed");
    }
    None
}

/// What the service manager says of a job that was removed.
pub open spec fn job_done(result: Seq<char>) -> bool {
    result == "done"@
}

/// What a removed job means for the one that is waited for: nothing if it is
/// another, else whether it succeeded.
pub fn job_removed(ours: bool, result: &str) -> (r: Option<bool>)
    ensures
        r == if ours {
            Some(job_done(result@))
        } else {
            None
        },
{
    if ours {
        Some(text::same_text(result, "done"))
    } else {
        None
    }
}

/// The interface that holds the state of a service.
pub open spec fn unit_interface() -> Seq<char> {
    "org.freedesktop.systemd1.Unit"@
}

/// An application's number is the lower half of its title's hash: as many
/// titles as can be told apart by 32 bits have numbers of their own.
pub proof fn numbers_are_lower_halves(hash: u64)
    ensures
        id_of(hash) as u32 as u64 == hash & 0xffff_ffff,
{
    assert(hash as i32 as u32 as u64 == hash & 0xffff_ffff) by (bit_vector);
}

/// An application is told of its sound, its displays and its colours, each
/// under its name, and then of everything else that is to be told.
pub proof fn environment_holds_everything(context: ApplicationContext, directory: Seq<char>, i: int)
    ensures
        ({
            let told = context.environment(directory);
            let colours: int = if context.hdr { 2 } else { 0 };
            &&& told.len() == 6 + colours + context.extra_env@.len()
            &&& told[0] == "PULSE_SERVER=unix:"@ + context.pulse_socket_path@
            &&& told[1] == "PULSE_RUNTIME_PATH="@ + directory
            &&& told[2] == "DISPLAY=:"@ + text::decimal(context.xdisplay as nat)
            &&& told[3] == "WAYLAND_DISPLAY="@ + context.wayland_display@
            &&& told[4] == "MOONSHINE_WAYLAND_DISPLAY="@ + context.wayland_display@
            &&& told[5] == "ENABLE_MOONSHINE_WSI=1"@
            &&& context.hdr ==> told[6] == "DXVK_HDR=1"@ && told[7] == "MOONSHINE_HDR=1"@
            &&& 0 <= i < context.extra_env@.len() ==> told[6 + colours + i]
                == context.extra_env@[i].0@ + "="@ + context.extra_env@[i].1@
        }),
{
}

/// Every command whose program was found is run with all its words, and
/// nothing else is run.
pub proof fn found_commands_are_run(entries: Seq<ExecEntry>, commands: Seq<FoundCommand>, i: int)
    requires
        entries_run(entries, commands.filter(runnable())),
    ensures
        0 <= i < commands.len() && commands[i].words@.len() > 0 && commands[i].path is Some ==> exists|
            k: int,
        |
            0 <= k < entries.len() && runs_command(#[trigger] entries[k], commands[i]),
        0 <= i < entries.len() ==> exists|k: int|
            {
                &&& 0 <= k < commands.len()
                &&& (#[trigger] commands[k]).words@.len() > 0
                &&& commands[k].path is Some
                &&& runs_command(entries[i], commands[k])
            },
{
    broadcast use vstd::seq_lib::group_filter_ensures;

    let kept = commands.filter(runnable());
    assert forall|k: int| #![trigger entries[k]] 0 <= k < entries.len() implies runs_command(
        entries[k],
        kept[k],
    ) by {
        assert(kept.contains(kept[k]));
        commands.lemma_filter_contains_rev(runnable(), kept[k]);
        assert(runnable()(kept[k]));
        let argv = text::texts(entries[k].argv@);
        let rest = text::texts(kept[k].words@.skip(1));
        assert(argv == seq![kept[k].path->0@] + rest);
        assert forall|j: int| #![trigger entries[k].argv@[j]] 1 <= j < entries[k].argv@.len() implies
            entries[k].argv@[j]@ == kept[k].words@[j]@ by {
            assert(argv[j] == rest[j - 1]);
        }
        assert(argv[0] == entries[k].argv@[0]@);
    }
    if 0 <= i < commands.len() && commands[i].words@.len() > 0 && commands[i].path is Some {
        commands.lemma_filter_contains(runnable(), i);
        let k = choose|k: int| 0 <= k < kept.len() && kept[k] == commands[i];
        assert(runs_command(entries[k], commands[i]));
    }
    if 0 <= i < entries.len() {
        assert(kept.contains(kept[i]));
        commands.lemma_filter_contains_rev(runnable(), kept[i]);
        let k = choose|k: int| 0 <= k < commands.len() && commands[k] == kept[i];
        assert(commands[k].words@.len() > 0);
    }
}

/// The entry has the program where it was found, its path as the first word,
/// and the other words of the command after it; its failure matters.
pub open spec fn runs_command(entry: ExecEntry, command: FoundCommand) -> bool {
    &&& entry.path@ == command.path->0@
    &&& entry.argv@.len() == command.words@.len()
    &&& entry.argv@[0]@ == command.path->0@
    &&& forall|j: int|
        #![trigger entry.argv@[j]]
        1 <= j < entry.argv@.len() ==> entry.argv@[j]@ == command.words@[j]@
    &&& !entry.ignore_errors
}

/// Commands are run in the order in which they are listed: one more that is
/// found comes last, and one that is not found or is empty changes nothing.
pub proof fn commands_keep_their_order(commands: Seq<FoundCommand>, command: FoundCommand)
    ensures
        commands.push(command).filter(runnable()) == if command.words@.len() > 0 && command.path is Some {
            commands.filter(runnable()).push(command)
        } else {
            commands.filter(runnable())
        },
{
    reveal(Seq::filter);
    assert(commands.push(command).drop_last() == commands);
}

/// A service does not come back from being inactive or failed, and only from
/// these; a job succeeded exactly if it is said to be done; and output for
/// which nothing is set goes nowhere.
pub proof fn states_mean_what_they_say(state: Seq<char>, setting: Option<String>)
    ensures
        is_terminal(state) <==> state == "inactive"@ || state == "failed"@,
        job_done(state) <==> state == "done"@,
        setting is None ==> output_of(setting) == "null"@,
        setting matches Some(s) ==> output_of(setting) == s@,
{
}

/// A property is a text or commands exactly if it has the name and the value.
pub proof fn properties_hold_their_values(
    property: Property,
    name: Seq<char>,
    value: Seq<char>,
    commands: Seq<ExecEntry>,
)
    ensures
        property.is_text(name, value) <==> property.name@ == name && (
        property.value matches PropertyValue::Text(t) && t@ == value),
        property.is_commands(name, commands) <==> property.name@ == name && (
        property.value matches PropertyValue::Commands(c) && c@ == commands),
        unit_interface() == "org.freedesktop.systemd1.Unit"@,
{
}

} // verus!
