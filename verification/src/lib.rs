//! Supervisor for a long-running, line-oriented game-server process.
//!
//! The library holds the verified core: the settings parser, the line
//! classifier for the built-in log formats and for the helper-process
//! protocol, the bounded event buffer, the task protocol, and the
//! supervisor state machine. The thin process/thread plumbing that drives
//! these lives outside the library.

pub mod channel;
pub mod chat;
pub mod events;
pub mod parse_line;
pub mod tasks;
pub mod text;
pub mod thread;
pub mod threaded;

use crate::text::{
    char_is_whitespace, find_str, is_blank, is_blank_str, is_whitespace_char, parse_u32_spec,
    parse_u32_str, spec_find, spec_trim, spec_trim_start, spec_u32_digits, str_eq_str,
    trim_start_str, trim_str, u32_to_string,
};
use vstd::prelude::*;

verus! {

/// How much memory, in megabytes, a server gets when the caller does not
/// say.
pub const DEFAULT_RAM_MB: u32 = 1024;

/// Which kind of server is supervised, which decides how its output lines
/// are read.
///
/// For `Custom`, each output line is handed to a separate helper process
/// (`line_parser` names its command) and the helper's reply is read back;
/// the live helper handle is owned by whoever drives the supervisor, not
/// by these settings.
#[derive(Debug, Clone, PartialEq, Eq)]
pub enum MinecraftServerType {
    VanillaMojang,
    VanillaPaperMC,
    Custom {
        /// The custom server kind's name.
        name: String,
        /// The command to start the line-classifying helper process.
        line_parser: String,
        /// A command that replaces the whole constructed command line.
        command_override: Option<String>,
    },
}

/// Everything needed to start and supervise one server.
#[derive(Debug, Clone, PartialEq, Eq)]
pub struct MinecraftServerSettings {
    pub server_type: MinecraftServerType,
    pub directory: String,
    pub executable: String,
    /// Memory dedicated to the server's virtual machine, in megabytes.
    pub dedicated_wam: u32,
    /// The interpreter to start, in place of the default one.
    pub java_cmd: Option<String>,
}

/// The mathematical value of a `MinecraftServerType`.
pub ghost enum ServerTypeView {
    VanillaMojang,
    VanillaPaperMC,
    Custom { name: Seq<char>, line_parser: Seq<char>, command_override: Option<Seq<char>> },
}

/// The mathematical value of a `MinecraftServerSettings`.
pub ghost struct SettingsView {
    pub server_type: ServerTypeView,
    pub directory: Seq<char>,
    pub executable: Seq<char>,
    pub dedicated_wam: u32,
    pub java_cmd: Option<Seq<char>>,
}

impl View for MinecraftServerType {
    type V = ServerTypeView;

    open spec fn view(&self) -> ServerTypeView {
        match self {
            MinecraftServerType::VanillaMojang => ServerTypeView::VanillaMojang,
            MinecraftServerType::VanillaPaperMC => ServerTypeView::VanillaPaperMC,
            MinecraftServerType::Custom { name, line_parser, command_override } => {
                ServerTypeView::Custom {
                    name: name@,
                    line_parser: line_parser@,
                    command_override: match command_override {
                        Some(c) => Some(c@),
                        None => None,
                    },
                }
            },
        }
    }
}

impl View for MinecraftServerSettings {
    type V = SettingsView;

    open spec fn view(&self) -> SettingsView {
        SettingsView {
            server_type: self.server_type@,
            directory: self.directory@,
            executable: self.executable@,
            dedicated_wam: self.dedicated_wam,
            java_cmd: match &self.java_cmd {
                Some(c) => Some(c@),
                None => None,
            },
        }
    }
}

impl MinecraftServerSettings {
    /// Settings for `server_type` run from `directory`, with the default
    /// memory size and interpreter.
    pub fn new(server_type: MinecraftServerType, directory: String, executable: String) -> (r:
        Self)
        ensures
            r.server_type == server_type,
            r.directory == directory,
            r.executable == executable,
            r.dedicated_wam == DEFAULT_RAM_MB,
            r.java_cmd is None,
    {
        Self { server_type, directory, executable, dedicated_wam: DEFAULT_RAM_MB, java_cmd: None }
    }

    /// The same settings with the memory size replaced.
    pub fn with_ram(self, ram_mb: u32) -> (r: Self)
        ensures
            r == (Self { dedicated_wam: ram_mb, ..self }),
    {
        Self { dedicated_wam: ram_mb, ..self }
    }

    /// The same settings with the interpreter override replaced.
    pub fn with_java_cmd(self, java_cmd: Option<String>) -> (r: Self)
        ensures
            r == (Self { java_cmd: java_cmd, ..self }),
    {
        Self { java_cmd, ..self }
    }
}

/// The command line that starts the server, as plain values: whoever
/// spawns the process reads the program, arguments and working directory
/// from here.
#[derive(Debug, PartialEq, Eq)]
pub struct CommandSpec {
    pub program: String,
    pub args: Vec<String>,
    pub directory: String,
}

/// The program `get_command` picks: the interpreter override when one is
/// set, else a custom kind's command override, else the default
/// interpreter.
pub open spec fn command_program_spec(s: SettingsView) -> Seq<char> {
    match s.java_cmd {
        Some(c) => c,
        None => match s.server_type {
            ServerTypeView::VanillaMojang => "java"@,
            ServerTypeView::VanillaPaperMC => "java"@,
            ServerTypeView::Custom { command_override, .. } => match command_override {
                Some(o) => o,
                None => "java"@,
            },
        },
    }
}

/// Whether a custom kind's command override is the whole command line:
/// only then does `get_command` pass no arguments of its own.
pub open spec fn uses_command_override(s: SettingsView) -> bool {
    s.java_cmd is None && s.server_type matches ServerTypeView::Custom {
        command_override: Some(_),
        ..
    }
}

/// The arguments `get_command` builds: both memory bounds, the encoding
/// flags, and the executable to run — unless a command override stands for
/// the whole command line, which then gets no arguments.
pub open spec fn command_args_spec(s: SettingsView) -> Seq<Seq<char>> {
    if uses_command_override(s) {
        Seq::empty()
    } else {
        seq![
            "-Xms"@ + spec_u32_digits(s.dedicated_wam as int) + "M"@,
            "-Xmx"@ + spec_u32_digits(s.dedicated_wam as int) + "M"@,
            "-Dsun.stdout.encoding=UTF-8"@,
            "-Dsun.stderr.encoding=UTF-8"@,
            "-DFile.Encoding=UTF-8"@,
            "-jar"@,
            s.executable,
            "nogui"@,
        ]
    }
}

impl MinecraftServerSettings {
    /// The command line that starts this server, run from its directory.
    /// With a custom command override (and no interpreter override) the
    /// override is the full command line: memory size and executable are
    /// ignored.
    pub fn get_command(&self) -> (r: CommandSpec)
        ensures
            r.program@ == command_program_spec(self@),
            r.directory@ == self.directory@,
            r.args.deep_view() == command_args_spec(self@),
    {
        let mut overridden = false;
        let program: String = if let Some(c) = &self.java_cmd {
            c.clone()
        } else {
            match &self.server_type {
                MinecraftServerType::VanillaMojang => "java".to_owned(),
                MinecraftServerType::VanillaPaperMC => "java".to_owned(),
                MinecraftServerType::Custom { command_override, .. } => {
                    if let Some(o) = command_override {
                        overridden = true;
                        o.clone()
                    } else {
                        "java".to_owned()
                    }
                },
            }
        };
        let mut args: Vec<String> = Vec::new();
        if !overridden {
            let ram = u32_to_string(self.dedicated_wam);
            let mut xms = "-Xms".to_owned();
            xms.append(ram.as_str());
            xms.append("M");
            let mut xmx = "-Xmx".to_owned();
            xmx.append(ram.as_str());
            xmx.append("M");
            args.push(xms);
            args.push(xmx);
            args.push("-Dsun.stdout.encoding=UTF-8".to_owned());
            args.push("-Dsun.stderr.encoding=UTF-8".to_owned());
            args.push("-DFile.Encoding=UTF-8".to_owned());
            args.push("-jar".to_owned());
            args.push(self.executable.clone());
            args.push("nogui".to_owned());
        }
        proof {
            assert(args.deep_view() =~= command_args_spec(self@));
        }
        CommandSpec { program, args, directory: self.directory.clone() }
    }
}

/// How a server kind is written out: its configuration name, with a custom
/// kind's own name in parentheses.
pub open spec fn server_type_display_spec(t: ServerTypeView) -> Seq<char> {
    match t {
        ServerTypeView::VanillaMojang => "vanilla-mojang"@,
        ServerTypeView::VanillaPaperMC => "vanilla-papermc"@,
        ServerTypeView::Custom { name, .. } => "custom ("@ + name + ")"@,
    }
}

/// How settings are written out: kind, directory, executable and memory.
pub open spec fn settings_display_spec(s: SettingsView) -> Seq<char> {
    server_type_display_spec(s.server_type) + " @ "@ + s.directory + " :: "@ + s.executable + " @ "@
        + spec_u32_digits(s.dedicated_wam as int) + "MB"@
}

impl MinecraftServerType {
    /// Writes the kind out, as `server_type_display_spec` says.
    pub fn display_string(&self) -> (r: String)
        ensures
            r@ == server_type_display_spec(self@),
    {
        match self {
            MinecraftServerType::VanillaMojang => "vanilla-mojang".to_owned(),
            MinecraftServerType::VanillaPaperMC => "vanilla-papermc".to_owned(),
            MinecraftServerType::Custom { name, .. } => {
                let mut out = "custom (".to_owned();
                out.append(name.as_str());
                out.append(")");
                out
            },
        }
    }
}

/// Why a settings section could not be read.
#[derive(Debug, PartialEq, Eq)]
pub enum MinecraftServerSettingsFromLinesError {
    UnknownKey(String),
    MissingServerType,
    UnknownServerType(String),
    MissingDirectory,
    MissingExecutable,
    RamNotAnInt(String),
    CustomTypeUnknownKey(String),
    CustomServerTypeMissingName,
    CustomServerTypeMissingLineParser,
}

/// The mathematical value of a `MinecraftServerSettingsFromLinesError`.
pub ghost enum FromLinesErrorView {
    UnknownKey(Seq<char>),
    MissingServerType,
    UnknownServerType(Seq<char>),
    MissingDirectory,
    MissingExecutable,
    RamNotAnInt(Seq<char>),
    CustomTypeUnknownKey(Seq<char>),
    CustomServerTypeMissingName,
    CustomServerTypeMissingLineParser,
}

impl View for MinecraftServerSettingsFromLinesError {
    type V = FromLinesErrorView;

    open spec fn view(&self) -> FromLinesErrorView {
        match self {
            MinecraftServerSettingsFromLinesError::UnknownKey(s) => FromLinesErrorView::UnknownKey(
                s@,
            ),
            MinecraftServerSettingsFromLinesError::MissingServerType => {
                FromLinesErrorView::MissingServerType
            },
            MinecraftServerSettingsFromLinesError::UnknownServerType(s) => {
                FromLinesErrorView::UnknownServerType(s@)
            },
            MinecraftServerSettingsFromLinesError::MissingDirectory => {
                FromLinesErrorView::MissingDirectory
            },
            MinecraftServerSettingsFromLinesError::MissingExecutable => {
                FromLinesErrorView::MissingExecutable
            },
            MinecraftServerSettingsFromLinesError::RamNotAnInt(s) => FromLinesErrorView::RamNotAnInt(
                s@,
            ),
            MinecraftServerSettingsFromLinesError::CustomTypeUnknownKey(s) => {
                FromLinesErrorView::CustomTypeUnknownKey(s@)
            },
            MinecraftServerSettingsFromLinesError::CustomServerTypeMissingName => {
                FromLinesErrorView::CustomServerTypeMissingName
            },
            MinecraftServerSettingsFromLinesError::CustomServerTypeMissingLineParser => {
                FromLinesErrorView::CustomServerTypeMissingLineParser
            },
        }
    }
}

/// The fields gathered so far while reading a settings section.
pub struct Partial {
    pub server_type: Option<MinecraftServerType>,
    pub directory: Option<String>,
    pub executable: Option<String>,
    pub ram: Option<u32>,
    pub java_cmd: Option<String>,
}

/// The mathematical value of a `Partial`.
pub ghost struct PartialView {
    pub server_type: Option<ServerTypeView>,
    pub directory: Option<Seq<char>>,
    pub executable: Option<Seq<char>>,
    pub ram: Option<u32>,
    pub java_cmd: Option<Seq<char>>,
}

impl View for Partial {
    type V = PartialView;

    open spec fn view(&self) -> PartialView {
        PartialView {
            server_type: match &self.server_type {
                Some(t) => Some(t@),
                None => None,
            },
            directory: match &self.directory {
                Some(s) => Some(s@),
                None => None,
            },
            executable: match &self.executable {
                Some(s) => Some(s@),
                None => None,
            },
            ram: self.ram,
            java_cmd: match &self.java_cmd {
                Some(s) => Some(s@),
                None => None,
            },
        }
    }
}

/// The custom-kind fields gathered so far from an indented block.
pub struct CustomPartial {
    pub name: Option<String>,
    pub parser: Option<String>,
    pub command_override: Option<String>,
}

/// The mathematical value of a `CustomPartial`.
pub ghost struct CustomPartialView {
    pub name: Option<Seq<char>>,
    pub parser: Option<Seq<char>>,
    pub command_override: Option<Seq<char>>,
}

impl View for CustomPartial {
    type V = CustomPartialView;

    open spec fn view(&self) -> CustomPartialView {
        CustomPartialView {
            name: match &self.name {
                Some(s) => Some(s@),
                None => None,
            },
            parser: match &self.parser {
                Some(s) => Some(s@),
                None => None,
            },
            command_override: match &self.command_override {
                Some(s) => Some(s@),
                None => None,
            },
        }
    }
}

/// What reading a settings section yields: the settings and the index of
/// the first line after the section, or the first error met.
pub ghost enum FromLinesResultView {
    Done { settings: SettingsView, next: int },
    Failed(FromLinesErrorView),
}

/// No fields gathered yet.
pub open spec fn empty_partial() -> PartialView {
    PartialView { server_type: None, directory: None, executable: None, ram: None, java_cmd: None }
}

/// Closing a section: the server kind, directory and executable are owed,
/// in that order of complaint; memory falls back to the default, the
/// interpreter override stays optional.
pub open spec fn finish_spec(acc: PartialView, next: int) -> FromLinesResultView {
    match acc.server_type {
        None => FromLinesResultView::Failed(FromLinesErrorView::MissingServerType),
        Some(t) => match acc.directory {
            None => FromLinesResultView::Failed(FromLinesErrorView::MissingDirectory),
            Some(d) => match acc.executable {
                None => FromLinesResultView::Failed(FromLinesErrorView::MissingExecutable),
                Some(x) => FromLinesResultView::Done {
                    settings: SettingsView {
                        server_type: t,
                        directory: d,
                        executable: x,
                        dedicated_wam: match acc.ram {
                            Some(r) => r,
                            None => DEFAULT_RAM_MB,
                        },
                        java_cmd: acc.java_cmd,
                    },
                    next,
                },
            },
        },
    }
}

/// Closing an indented custom block: a name and a helper command are owed,
/// in that order of complaint.
pub open spec fn finish_custom_spec(c: CustomPartialView) -> Result<
    ServerTypeView,
    FromLinesErrorView,
> {
    match c.name {
        None => Err(FromLinesErrorView::CustomServerTypeMissingName),
        Some(nm) => match c.parser {
            None => Err(FromLinesErrorView::CustomServerTypeMissingLineParser),
            Some(p) => Ok(
                ServerTypeView::Custom {
                    name: nm,
                    line_parser: p,
                    command_override: c.command_override,
                },
            ),
        },
    }
}

/// Reads section lines from `i` on: `key=value` pairs fill the fields,
/// later values replacing earlier ones; a blank line or the end closes the
/// section; anything else is an unknown key.
pub open spec fn parse_top_spec(
    lines: Seq<Seq<char>>,
    i: int,
    acc: PartialView,
) -> FromLinesResultView
    decreases lines.len() - i, 0int,
{
    if i < 0 || i >= lines.len() {
        finish_spec(acc, i)
    } else {
        let line = lines[i];
        match spec_find(line, "="@) {
            Some(eq) => {
                let key = line.subrange(0, eq);
                let value = line.subrange(eq + 1, line.len() as int);
                if key == "type"@ {
                    let v = spec_trim(value);
                    if v == "vanilla-mojang"@ {
                        parse_top_spec(
                            lines,
                            i + 1,
                            PartialView { server_type: Some(ServerTypeView::VanillaMojang), ..acc },
                        )
                    } else if v == "vanilla-papermc"@ {
                        parse_top_spec(
                            lines,
                            i + 1,
                            PartialView {
                                server_type: Some(ServerTypeView::VanillaPaperMC),
                                ..acc
                            },
                        )
                    } else if v == "custom"@ {
                        parse_custom_spec(
                            lines,
                            i + 1,
                            CustomPartialView { name: None, parser: None, command_override: None },
                            acc,
                        )
                    } else {
                        FromLinesResultView::Failed(FromLinesErrorView::UnknownServerType(v))
                    }
                } else if key == "dir"@ {
                    parse_top_spec(lines, i + 1, PartialView { directory: Some(value), ..acc })
                } else if key == "exec"@ {
                    parse_top_spec(lines, i + 1, PartialView { executable: Some(value), ..acc })
                } else if key == "ram"@ {
                    match parse_u32_spec(spec_trim(value)) {
                        Some(r) => parse_top_spec(
                            lines,
                            i + 1,
                            PartialView { ram: Some(r), ..acc },
                        ),
                        None => FromLinesResultView::Failed(FromLinesErrorView::RamNotAnInt(value)),
                    }
                } else if key == "java_cmd"@ {
                    parse_top_spec(lines, i + 1, PartialView { java_cmd: Some(value), ..acc })
                } else {
                    FromLinesResultView::Failed(FromLinesErrorView::UnknownKey(key))
                }
            },
            None => {
                if is_blank(line) {
                    finish_spec(acc, i + 1)
                } else {
                    FromLinesResultView::Failed(FromLinesErrorView::UnknownKey(line))
                }
            },
        }
    }
}

/// Reads the indented block under `type=custom`: empty lines are skipped,
/// lines starting with white space carry `key=value` pairs, and the first
/// line that does neither closes the block and is read again as a section
/// line.
pub open spec fn parse_custom_spec(
    lines: Seq<Seq<char>>,
    i: int,
    c: CustomPartialView,
    acc: PartialView,
) -> FromLinesResultView
    decreases lines.len() - i, 1int,
{
    if i < 0 || i >= lines.len() {
        match finish_custom_spec(c) {
            Err(e) => FromLinesResultView::Failed(e),
            Ok(t) => parse_top_spec(lines, i, PartialView { server_type: Some(t), ..acc }),
        }
    } else {
        let line = lines[i];
        if line.len() == 0 {
            parse_custom_spec(lines, i + 1, c, acc)
        } else if char_is_whitespace(line[0]) {
            let t = spec_trim_start(line);
            match spec_find(t, "="@) {
                Some(eq) => {
                    let key = t.subrange(0, eq);
                    let val = t.subrange(eq + 1, t.len() as int);
                    if key == "name"@ {
                        parse_custom_spec(
                            lines,
                            i + 1,
                            CustomPartialView { name: Some(val), ..c },
                            acc,
                        )
                    } else if key == "parser"@ {
                        parse_custom_spec(
                            lines,
                            i + 1,
                            CustomPartialView { parser: Some(val), ..c },
                            acc,
                        )
                    } else if key == "command-override"@ {
                        parse_custom_spec(
                            lines,
                            i + 1,
                            CustomPartialView { command_override: Some(val), ..c },
                            acc,
                        )
                    } else {
                        FromLinesResultView::Failed(FromLinesErrorView::CustomTypeUnknownKey(key))
                    }
                },
                None => FromLinesResultView::Failed(FromLinesErrorView::CustomTypeUnknownKey(t)),
            }
        } else {
            match finish_custom_spec(c) {
                Err(e) => FromLinesResultView::Failed(e),
                Ok(t) => parse_top_spec(lines, i, PartialView { server_type: Some(t), ..acc }),
            }
        }
    }
}

/// What a whole `from_lines` call means, at the spec level.
pub open spec fn from_lines_spec(lines: Seq<Seq<char>>, start: int) -> FromLinesResultView {
    parse_top_spec(lines, start, empty_partial())
}

/// The mathematical value of a `from_lines` result.
pub open spec fn from_lines_result_view(
    r: Result<(MinecraftServerSettings, usize), MinecraftServerSettingsFromLinesError>,
) -> FromLinesResultView {
    match r {
        Ok(p) => FromLinesResultView::Done { settings: p.0@, next: p.1 as int },
        Err(e) => FromLinesResultView::Failed(e@),
    }
}

/// Closes a section, as `finish_spec` says.
fn finish_exec(acc: Partial, next: usize) -> (r: Result<
    (MinecraftServerSettings, usize),
    MinecraftServerSettingsFromLinesError,
>)
    ensures
        from_lines_result_view(r) == finish_spec(acc@, next as int),
{
    let Partial { server_type, directory, executable, ram, java_cmd } = acc;
    match server_type {
        None => Err(MinecraftServerSettingsFromLinesError::MissingServerType),
        Some(t) => match directory {
            None => Err(MinecraftServerSettingsFromLinesError::MissingDirectory),
            Some(d) => match executable {
                None => Err(MinecraftServerSettingsFromLinesError::MissingExecutable),
                Some(x) => {
                    let mut o = MinecraftServerSettings::new(t, d, x);
                    if let Some(r) = ram {
                        o = o.with_ram(r);
                    }
                    if let Some(jc) = java_cmd {
                        o = o.with_java_cmd(Some(jc));
                    }
                    Ok((o, next))
                },
            },
        },
    }
}

/// Closes an indented custom block, as `finish_custom_spec` says.
fn finish_custom_exec(c: CustomPartial) -> (r: Result<
    MinecraftServerType,
    MinecraftServerSettingsFromLinesError,
>)
    ensures
        match r {
            Ok(t) => finish_custom_spec(c@) == Ok::<ServerTypeView, FromLinesErrorView>(t@),
            Err(e) => finish_custom_spec(c@) == Err::<ServerTypeView, FromLinesErrorView>(e@),
        },
{
    let CustomPartial { name, parser, command_override } = c;
    match name {
        None => Err(MinecraftServerSettingsFromLinesError::CustomServerTypeMissingName),
        Some(nm) => match parser {
            None => Err(MinecraftServerSettingsFromLinesError::CustomServerTypeMissingLineParser),
            Some(p) => Ok(
                MinecraftServerType::Custom { name: nm, line_parser: p, command_override },
            ),
        },
    }
}

/// Reads section lines from `i` on, as `parse_top_spec` says.
fn parse_top_exec(lines: &Vec<String>, i: usize, acc: Partial) -> (r: Result<
    (MinecraftServerSettings, usize),
    MinecraftServerSettingsFromLinesError,
>)
    requires
        i <= lines@.len(),
    ensures
        from_lines_result_view(r) == parse_top_spec(lines.deep_view(), i as int, acc@),
        r matches Ok(p) ==> p.1 <= lines@.len(),
    decreases lines@.len() - i, 0int,
{
    proof {
        reveal_strlit("=");
    }
    if i >= lines.len() {
        return finish_exec(acc, i);
    }
    let ls = lines[i].as_str();
    proof {
        assert(lines.deep_view()[i as int] == lines@[i as int]@);
    }
    let n = ls.unicode_len();
    match find_str(ls, "=") {
        Some(eq) => {
            let key = ls.substring_char(0, eq);
            let value = ls.substring_char(eq + 1, n);
            proof {
                assert(key@ =~= ls@.subrange(0, eq as int));
                assert(value@ =~= ls@.subrange(eq + 1, ls@.len() as int));
            }
            if str_eq_str(key, "type") {
                let v = trim_str(value);
                if str_eq_str(v, "vanilla-mojang") {
                    parse_top_exec(
                        lines,
                        i + 1,
                        Partial { server_type: Some(MinecraftServerType::VanillaMojang), ..acc },
                    )
                } else if str_eq_str(v, "vanilla-papermc") {
                    parse_top_exec(
                        lines,
                        i + 1,
                        Partial { server_type: Some(MinecraftServerType::VanillaPaperMC), ..acc },
                    )
                } else if str_eq_str(v, "custom") {
                    parse_custom_exec(
                        lines,
                        i + 1,
                        CustomPartial { name: None, parser: None, command_override: None },
                        acc,
                    )
                } else {
                    Err(
                        MinecraftServerSettingsFromLinesError::UnknownServerType(v.to_owned()),
                    )
                }
            } else if str_eq_str(key, "dir") {
                parse_top_exec(lines, i + 1, Partial { directory: Some(value.to_owned()), ..acc })
            } else if str_eq_str(key, "exec") {
                parse_top_exec(lines, i + 1, Partial { executable: Some(value.to_owned()), ..acc })
            } else if str_eq_str(key, "ram") {
                match parse_u32_str(trim_str(value)) {
                    Some(r) => parse_top_exec(lines, i + 1, Partial { ram: Some(r), ..acc }),
                    None => Err(
                        MinecraftServerSettingsFromLinesError::RamNotAnInt(value.to_owned()),
                    ),
                }
            } else if str_eq_str(key, "java_cmd") {
                parse_top_exec(lines, i + 1, Partial { java_cmd: Some(value.to_owned()), ..acc })
            } else {
                Err(MinecraftServerSettingsFromLinesError::UnknownKey(key.to_owned()))
            }
        },
        None => {
            if is_blank_str(ls) {
                finish_exec(acc, i + 1)
            } else {
                Err(MinecraftServerSettingsFromLinesError::UnknownKey(ls.to_owned()))
            }
        },
    }
}

/// Reads the indented block under `type=custom`, as `parse_custom_spec`
/// says.
fn parse_custom_exec(lines: &Vec<String>, i: usize, c: CustomPartial, acc: Partial) -> (r: Result<
    (MinecraftServerSettings, usize),
    MinecraftServerSettingsFromLinesError,
>)
    requires
        i <= lines@.len(),
    ensures
        from_lines_result_view(r) == parse_custom_spec(lines.deep_view(), i as int, c@, acc@),
        r matches Ok(p) ==> p.1 <= lines@.len(),
    decreases lines@.len() - i, 1int,
{
    proof {
        reveal_strlit("=");
    }
    if i >= lines.len() {
        return match finish_custom_exec(c) {
            Err(e) => Err(e),
            Ok(t) => parse_top_exec(lines, i, Partial { server_type: Some(t), ..acc }),
        };
    }
    let ls = lines[i].as_str();
    proof {
        assert(lines.deep_view()[i as int] == lines@[i as int]@);
    }
    let n = ls.unicode_len();
    if n == 0 {
        return parse_custom_exec(lines, i + 1, c, acc);
    }
    if is_whitespace_char(ls.get_char(0)) {
        let t = trim_start_str(ls);
        let tn = t.unicode_len();
        match find_str(t, "=") {
            Some(eq) => {
                let key = t.substring_char(0, eq);
                let val = t.substring_char(eq + 1, tn);
                proof {
                    assert(key@ =~= t@.subrange(0, eq as int));
                    assert(val@ =~= t@.subrange(eq + 1, t@.len() as int));
                }
                if str_eq_str(key, "name") {
                    parse_custom_exec(
                        lines,
                        i + 1,
                        CustomPartial { name: Some(val.to_owned()), ..c },
                        acc,
                    )
                } else if str_eq_str(key, "parser") {
                    parse_custom_exec(
                        lines,
                        i + 1,
                        CustomPartial { parser: Some(val.to_owned()), ..c },
                        acc,
                    )
                } else if str_eq_str(key, "command-override") {
                    parse_custom_exec(
                        lines,
                        i + 1,
                        CustomPartial { command_override: Some(val.to_owned()), ..c },
                        acc,
                    )
                } else {
                    Err(
                        MinecraftServerSettingsFromLinesError::CustomTypeUnknownKey(key.to_owned()),
                    )
                }
            },
            None => Err(
                MinecraftServerSettingsFromLinesError::CustomTypeUnknownKey(t.to_owned()),
            ),
        }
    } else {
        match finish_custom_exec(c) {
            Err(e) => Err(e),
            Ok(t) => parse_top_exec(lines, i, Partial { server_type: Some(t), ..acc }),
        }
    }
}

impl MinecraftServerSettings {
    /// Writes the settings out, as `settings_display_spec` says.
    pub fn display_string(&self) -> (r: String)
        ensures
            r@ == settings_display_spec(self@),
    {
        let mut out = self.server_type.display_string();
        out.append(" @ ");
        out.append(self.directory.as_str());
        out.append(" :: ");
        out.append(self.executable.as_str());
        out.append(" @ ");
        let ram = u32_to_string(self.dedicated_wam);
        out.append(ram.as_str());
        out.append("MB");
        out
    }

    /// Reads one settings section: `key=value` lines from `start` until a
    /// blank line or the end (the lines carry no terminators). The result
    /// is the settings together with the index of the first line after the
    /// section, or the first error met, exactly as `from_lines_spec` says.
    pub fn from_lines(lines: &Vec<String>, start: usize) -> (r: Result<
        (Self, usize),
        MinecraftServerSettingsFromLinesError,
    >)
        requires
            start <= lines@.len(),
        ensures
            from_lines_result_view(r) == from_lines_spec(lines.deep_view(), start as int),
            r matches Ok(p) ==> p.1 <= lines@.len(),
    {
        parse_top_exec(
            lines,
            start,
            Partial { server_type: None, directory: None, executable: None, ram: None, java_cmd: None },
        )
    }
}

} // verus!
