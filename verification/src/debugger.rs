//! The supported debugger vendors, and the pure part of locating a debugger
//! executable: name selection, the default installation path, and the
//! resolution order among an environment override, the default path and the
//! bare executable name. Reading the environment and probing the file system
//! stay with the caller, which hands the results in as plain values.

use vstd::prelude::*;
use vstd::string::StrSliceExecFns;
use vstd::string::StringExecFns;

verus! {

/// The closed set of supported debugger vendors.
#[derive(Debug)]
pub enum DebuggerType {
    Cdb,
}

/// The canonical name of a debugger vendor.
pub open spec fn spec_debugger_name(t: DebuggerType) -> Seq<char> {
    match t {
        DebuggerType::Cdb => "cdb"@,
    }
}

/// Whether `s` names the CDB debugger, compared without regard to ASCII
/// case.
pub open spec fn names_cdb(s: Seq<char>) -> bool {
    s.len() == 3 && (s[0] == 'c' || s[0] == 'C') && (s[1] == 'd' || s[1] == 'D') && (s[2] == 'b'
        || s[2] == 'B')
}

/// A rejected debugger-type option; it carries the string as given.
pub struct DebuggerTypeError {
    pub input: String,
}

/// The human-readable text of a [`DebuggerTypeError`].
pub open spec fn spec_debugger_type_error_message(input: Seq<char>) -> Seq<char> {
    "Invalid debugger type option: `"@ + input + "`."@
}

impl DebuggerTypeError {
    /// Renders the rejection for display, carrying the offending option.
    pub fn message(&self) -> (r: String)
        ensures
            r@ == spec_debugger_type_error_message(self.input@),
    {
        let mut m = String::from_str("Invalid debugger type option: `");
        m.append(self.input.as_str());
        m.append("`.");
        assert(m@ =~= spec_debugger_type_error_message(self.input@));
        m
    }
}

impl DebuggerType {
    /// The canonical name of this debugger vendor.
    pub fn name(&self) -> (r: &'static str)
        ensures
            r@ == spec_debugger_name(*self),
    {
        match self {
            DebuggerType::Cdb => "cdb",
        }
    }

    /// Parses a debugger-type option: exactly the names of the supported
    /// vendors are accepted, without regard to ASCII case; anything else is
    /// rejected with the option echoed back.
    pub fn from_str(s: &str) -> (r: Result<DebuggerType, DebuggerTypeError>)
        ensures
            r is Ok <==> names_cdb(s@),
            r matches Ok(t) ==> t == DebuggerType::Cdb,
            r matches Err(e) ==> e.input@ == s@,
    {
        let len = s.unicode_len();
        if len == 3 {
            let c0 = s.get_char(0);
            let c1 = s.get_char(1);
            let c2 = s.get_char(2);
            if (c0 == 'c' || c0 == 'C') && (c1 == 'd' || c1 == 'D') && (c2 == 'b' || c2 == 'B') {
                return Ok(DebuggerType::Cdb);
            }
        }
        Err(DebuggerTypeError { input: s.to_owned() })
    }
}

/// The architecture directories the default installation carries a debugger
/// for.
pub enum DebuggerArch {
    X86,
    X64,
    Arm,
    Arm64,
}

/// The directory name of an architecture under the default installation.
pub open spec fn spec_arch_dir(a: DebuggerArch) -> Seq<char> {
    match a {
        DebuggerArch::X86 => "x86"@,
        DebuggerArch::X64 => "x64"@,
        DebuggerArch::Arm => "arm"@,
        DebuggerArch::Arm64 => "arm64"@,
    }
}

/// The directory name of an architecture under the default installation.
pub fn arch_dir(a: &DebuggerArch) -> (r: &'static str)
    ensures
        r@ == spec_arch_dir(*a),
{
    match a {
        DebuggerArch::X86 => "x86",
        DebuggerArch::X64 => "x64",
        DebuggerArch::Arm => "arm",
        DebuggerArch::Arm64 => "arm64",
    }
}

/// The path CDB is installed at by default: under the Windows 10 SDK
/// debugger directory of the program-files directory, in the architecture's
/// subdirectory.
pub open spec fn spec_default_cdb_path(program_files: Seq<char>, a: DebuggerArch) -> Seq<char> {
    program_files + "\\Windows Kits\\10\\Debuggers\\"@ + spec_arch_dir(a) + "\\cdb.exe"@
}

/// The default installation path of `cdb.exe` for one architecture, under
/// the given program-files directory. Whether a debugger actually sits there
/// is for the caller to probe.
pub fn default_cdb_path(program_files: &str, a: &DebuggerArch) -> (r: String)
    ensures
        r@ == spec_default_cdb_path(program_files@, *a),
{
    let mut path = program_files.to_owned();
    path.append("\\Windows Kits\\10\\Debuggers\\");
    path.append(arch_dir(a));
    path.append("\\cdb.exe");
    assert(path@ =~= spec_default_cdb_path(program_files@, *a));
    path
}

/// The executable file name of a debugger vendor: its canonical name with
/// the platform's executable extension.
pub fn debugger_executable(t: &DebuggerType, extension: &str) -> (r: String)
    ensures
        r@ == spec_debugger_name(*t) + extension@,
{
    let mut name = t.name().to_owned();
    name.append(extension);
    name
}

/// The executable path the session launches, resolved in this order: a
/// directory named by the vendor's environment override, taken
/// unconditionally; otherwise the default installation path, where the
/// caller found one there; otherwise the bare executable name, deferring
/// resolution to the launch-time search path.
pub fn get_debugger(
    debugger_type: &DebuggerType,
    env_dir: Option<&String>,
    default_path: Option<String>,
    extension: &str,
) -> (r: String)
    ensures
        ({
            let exe = spec_debugger_name(*debugger_type) + extension@;
            match env_dir {
                Some(d) => r@ == d@ + "\\"@ + exe,
                None => match default_path {
                    Some(p) => r@ == p@,
                    None => r@ == exe,
                },
            }
        }),
{
    let exe = debugger_executable(debugger_type, extension);
    match env_dir {
        Some(d) => {
            let mut path = d.clone();
            path.append("\\");
            path.append(exe.as_str());
            assert(path@ =~= d@ + "\\"@ + (spec_debugger_name(*debugger_type) + extension@));
            path
        },
        None => match default_path {
            Some(p) => p,
            None => exe,
        },
    }
}

} // verus!
