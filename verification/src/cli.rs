use vstd::prelude::*;
use vstd::string::StringExecFns;

verus! {

/// The kind of Game Boy to emulate.
#[derive(Debug, Clone, Copy, PartialEq, Eq, Structural)]
pub enum GbType {
    Dmg,
    Cgb,
}

/// The options given on the command line.
pub struct EmulatorArguments {
    pub rom_path: Option<String>,
    pub boot_rom: bool,
    pub gb_type: Option<GbType>,
}

/// What the file system says of a ROM path.
pub enum PathStatus {
    /// A regular file its owner may read.
    ReadableFile,
    /// The owner's read permission bit is clear.
    NotReadable,
    /// The path exists but is no regular file.
    NotAFile,
    NotFound,
    PermissionDenied,
    /// A component of the path is no directory, or the path is malformed.
    InvalidPath,
    /// The platform cannot report on the path.
    Unsupported,
    /// Any other failure, with its description.
    Unexpected(String),
}

/// What the metadata of an existing path says of it: with the owner's read bit
/// (0o400) of `mode` clear the file cannot be read; otherwise only a regular file
/// will do.
pub fn classify_rom(mode: u32, is_file: bool) -> (r: PathStatus)
    ensures
        mode & 0o400 == 0 ==> r is NotReadable,
        mode & 0o400 != 0 && is_file ==> r is ReadableFile,
        mode & 0o400 != 0 && !is_file ==> r is NotAFile,
{
    if mode & 0o400 == 0 {
        PathStatus::NotReadable
    } else if is_file {
        PathStatus::ReadableFile
    } else {
        PathStatus::NotAFile
    }
}

/// The message of `rom_path_verdict` for a path that cannot be used.
pub open spec fn rom_path_message(path: Seq<char>, status: PathStatus) -> Seq<char> {
    match status {
        PathStatus::ReadableFile => Seq::empty(),
        PathStatus::NotReadable => path + " : Not allowed to read file"@,
        PathStatus::NotAFile => path + " : Path doesn't refer to a file"@,
        PathStatus::NotFound => path + " : File not found"@,
        PathStatus::PermissionDenied => path + " : Not allowed"@,
        PathStatus::InvalidPath => path + " : Invalid path"@,
        PathStatus::Unsupported => path + " : Unsuported stats read"@,
        PathStatus::Unexpected(description) => description@,
    }
}

/// Whether a ROM path can be used: only a readable regular file can; otherwise the
/// error names the path and the reason.
pub fn rom_path_verdict(path: &str, status: PathStatus) -> (r: Result<(), String>)
    ensures
        (status is ReadableFile) <==> (r is Ok),
        r is Err ==> r->Err_0@ == rom_path_message(path@, status),
{
    proof {
        reveal_strlit(" : Not allowed to read file");
        reveal_strlit(" : Path doesn't refer to a file");
        reveal_strlit(" : File not found");
        reveal_strlit(" : Not allowed");
        reveal_strlit(" : Invalid path");
        reveal_strlit(" : Unsuported stats read");
    }
    match status {
        PathStatus::ReadableFile => Ok(()),
        PathStatus::NotReadable => Err(path.to_owned().concat(" : Not allowed to read file")),
        PathStatus::NotAFile => Err(path.to_owned().concat(" : Path doesn't refer to a file")),
        PathStatus::NotFound => Err(path.to_owned().concat(" : File not found")),
        PathStatus::PermissionDenied => Err(path.to_owned().concat(" : Not allowed")),
        PathStatus::InvalidPath => Err(path.to_owned().concat(" : Invalid path")),
        PathStatus::Unsupported => Err(path.to_owned().concat(" : Unsuported stats read")),
        PathStatus::Unexpected(description) => Err(description),
    }
}

/// The message of `check_fields` when the ROM path check failed with `error`: one
/// line naming the field, ended by a newline.
pub open spec fn fields_message(error: Seq<char>) -> Seq<char> {
    "rom_path : "@ + error + "\n"@
}

impl EmulatorArguments {
    /// Gathers the failed checks of the arguments; `rom_path_check` is what checking the
    /// ROM path gave. With no failure the arguments come back unchanged.
    pub fn check_fields(self, rom_path_check: Result<(), String>) -> (r: Result<Self, String>)
        ensures
            (rom_path_check is Ok) <==> (r is Ok),
            r is Ok ==> r->Ok_0 == self,
            rom_path_check is Err ==> r is Err && r->Err_0@ == fields_message(rom_path_check->Err_0@),
    {
        proof {
            reveal_strlit("rom_path : ");
            reveal_strlit("\n");
        }
        match rom_path_check {
            Ok(()) => Ok(self),
            Err(error) => Err(String::from_str("rom_path : ").concat(error.as_str()).concat("\n")),
        }
    }
}

} // verus!
