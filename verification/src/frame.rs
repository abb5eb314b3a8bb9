//! Stack frames, stacktraces, source locations and log entries.
use vstd::prelude::*;

use crate::addr::Addr;
use crate::json::Value;
use crate::map::{new_value_map, value_map_entries};

use linked_hash_map::LinkedHashMap;

verus! {

/// Represents a log entry message.
///
/// A log message is similar to the `message` attribute on the event itself but
/// can additionally hold optional parameters.
#[derive(Clone, Debug, PartialEq)]
pub struct LogEntry {
    /// The log message with parameters replaced by `%s`
    pub message: String,
    /// Positional parameters to be inserted into the log entry.
    pub params: Vec<Value>,
}

impl Default for LogEntry {
    fn default() -> (r: LogEntry)
        ensures
            r.message@ == Seq::<char>::empty(),
            r.params@ == Seq::<Value>::empty(),
    {
        LogEntry { message: String::new(), params: Vec::new() }
    }
}

/// Represents a frame.
#[derive(Clone, Debug, PartialEq)]
pub struct Frame {
    /// The name of the function is known.
    ///
    /// Note that this might include the name of a class as well if that makes
    /// sense for the language.
    pub function: Option<String>,
    /// The potentially mangled name of the symbol as it appears in an executable.
    ///
    /// This is different from a function name by generally being the mangled
    /// name that appears natively in the binary.  This is relevant for languages
    /// like Swift, C++ or Rust.
    pub symbol: Option<String>,
    /// The name of the module the frame is contained in.
    ///
    /// Note that this might also include a class name if that is something the
    /// language natively considers to be part of the stack (for instance in Java).
    pub module: Option<String>,
    /// The name of the package that contains the frame.
    ///
    /// For instance this can be a dylib for native languages, the name of the jar
    /// or .NET assembly.
    pub package: Option<String>,
    /// Location information about where the error originated.
    pub location: FileLocation,
    /// Embedded sourcecode in the frame.
    pub source: EmbeddedSources,
    /// In-app indicator.
    pub in_app: Option<bool>,
    /// Optional local variables.
    pub vars: LinkedHashMap<String, Value>,
    /// Optional instruction information for native languages.
    pub instruction_info: InstructionInfo,
}

impl Default for Frame {
    fn default() -> (r: Frame)
        ensures
            r.function is None,
            r.symbol is None,
            r.module is None,
            r.package is None,
            r.location.is_empty_location(),
            r.source.is_empty_source(),
            r.in_app is None,
            value_map_entries(r.vars).len() == 0,
            r.instruction_info == (InstructionInfo {
                image_addr: None,
                instruction_addr: None,
                symbol_addr: None,
            }),
    {
        Frame {
            function: None,
            symbol: None,
            module: None,
            package: None,
            location: FileLocation::default(),
            source: EmbeddedSources::default(),
            in_app: None,
            vars: new_value_map(),
            instruction_info: InstructionInfo::default(),
        }
    }
}

/// Represents location information.
#[derive(Debug, Clone, PartialEq)]
pub struct FileLocation {
    /// The filename (basename only).
    pub filename: Option<String>,
    /// If known the absolute path.
    pub abs_path: Option<String>,
    /// The line number if known.
    pub line: Option<u64>,
    /// The column number if known.
    pub column: Option<u64>,
}

impl FileLocation {
    /// Whether no part of the location is known.
    pub open spec fn is_empty_location(self) -> bool {
        &&& self.filename is None
        &&& self.abs_path is None
        &&& self.line is None
        &&& self.column is None
    }
}

impl Default for FileLocation {
    fn default() -> (r: FileLocation)
        ensures
            r.is_empty_location(),
    {
        FileLocation { filename: None, abs_path: None, line: None, column: None }
    }
}

/// Represents instruction information.
#[derive(Debug, Clone, PartialEq, Eq, Structural)]
pub struct InstructionInfo {
    /// If known the location of the image.
    pub image_addr: Option<Addr>,
    /// If known the location of the instruction.
    pub instruction_addr: Option<Addr>,
    /// If known the location of symbol.
    pub symbol_addr: Option<Addr>,
}

impl Default for InstructionInfo {
    fn default() -> (r: InstructionInfo)
        ensures
            r.image_addr is None,
            r.instruction_addr is None,
            r.symbol_addr is None,
    {
        InstructionInfo { image_addr: None, instruction_addr: None, symbol_addr: None }
    }
}

/// Represents template debug info.
#[derive(Clone, Debug, PartialEq)]
pub struct TemplateInfo {
    /// Location information about where the error originated.
    pub location: FileLocation,
    /// Embedded sourcecode in the frame.
    pub source: EmbeddedSources,
}

impl Default for TemplateInfo {
    fn default() -> (r: TemplateInfo)
        ensures
            r.location.is_empty_location(),
            r.source.is_empty_source(),
    {
        TemplateInfo { location: FileLocation::default(), source: EmbeddedSources::default() }
    }
}

/// Represents contextual information in a frame.
#[derive(Debug, Clone, PartialEq)]
pub struct EmbeddedSources {
    /// The sources of the lines leading up to the current line.
    pub pre_lines: Vec<String>,
    /// The current line as source.
    pub current_line: Option<String>,
    /// The sources of the lines after the current line.
    pub post_lines: Vec<String>,
}

impl EmbeddedSources {
    /// Whether no source line is held.
    pub open spec fn is_empty_source(self) -> bool {
        &&& self.pre_lines@.len() == 0
        &&& self.current_line is None
        &&& self.post_lines@.len() == 0
    }
}

impl Default for EmbeddedSources {
    fn default() -> (r: EmbeddedSources)
        ensures
            r.is_empty_source(),
    {
        EmbeddedSources { pre_lines: Vec::new(), current_line: None, post_lines: Vec::new() }
    }
}

/// Represents a stacktrace.
#[derive(Debug, Clone, PartialEq)]
pub struct Stacktrace {
    /// The list of frames in the stacktrace.
    pub frames: Vec<Frame>,
    /// Optionally a segment of frames removed (`start`, `end`)
    pub frames_omitted: Option<(u64, u64)>,
}

impl Default for Stacktrace {
    fn default() -> (r: Stacktrace)
        ensures
            r.frames@.len() == 0,
            r.frames_omitted is None,
    {
        Stacktrace { frames: Vec::new(), frames_omitted: None }
    }
}

} // verus!
