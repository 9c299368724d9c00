//! The compiler back ends and what sets them apart: where each leaves its
//! artifact, how each is invoked, and which of its captured text names a
//! failure.

use crate::diagnostics::{decode_lossy, last_non_empty_line, last_non_empty_line_of, utf8_lossy_text};
use crate::failure::{Failure, FailureKind, FailureView};
use crate::paths::text_of;
use vstd::prelude::*;

verus! {

/// The way a document is compiled. One is chosen when the application is
/// configured, and every request goes through it.
#[derive(Clone, Copy, PartialEq, Eq, Debug, Structural)]
pub enum Backend {
    /// A compiler installed on the system, run as a child process.
    SystemBinary,
    /// A companion executable shipped with the application.
    SidecarProcess,
    /// A compilation routine linked into the application.
    EmbeddedLibrary,
}

/// The base name that the system compiler gives its output, whatever the
/// source file is called.
pub open spec fn fixed_base_name() -> Seq<char> {
    "preview"@
}

/// The extension of a compiled artifact, with its dot.
pub open spec fn artifact_extension() -> Seq<char> {
    ".pdf"@
}

/// What is said of a source path without a parent directory.
pub open spec fn no_parent_message() -> Seq<char> {
    "Invalid file path: no parent directory"@
}

/// What is said of a source path without a file name.
pub open spec fn no_stem_message() -> Seq<char> {
    "Invalid file name"@
}

/// The executable of the system compiler.
pub open spec fn system_program() -> Seq<char> {
    "pdflatex"@
}

/// The name under which the companion executable is shipped.
pub open spec fn sidecar_program() -> Seq<char> {
    "tectonic"@
}

/// A failure to derive an output path, with its message.
pub open spec fn invalid_path(message: Seq<char>) -> FailureView {
    FailureView { kind: FailureKind::InvalidPath, message }
}

/// The characters of each string of a list.
pub open spec fn texts(v: Seq<String>) -> Seq<Seq<char>> {
    Seq::new(v.len(), |i: int| v[i]@)
}

/// Where an artifact goes: the directory, and the file name within it.
#[derive(Debug, PartialEq, Eq)]
pub struct Layout {
    pub output_dir: String,
    pub file_name: String,
}

/// A `Layout` as a mathematical value.
pub struct LayoutView {
    pub output_dir: Seq<char>,
    pub file_name: Seq<char>,
}

impl View for Layout {
    type V = LayoutView;

    open spec fn view(&self) -> LayoutView {
        LayoutView { output_dir: self.output_dir@, file_name: self.file_name@ }
    }
}

impl Backend {
    /// Whether the artifact is named after the source file. The system
    /// compiler is the one back end that names it by a fixed word.
    pub open spec fn names_artifact_after_source(self) -> bool {
        self != Backend::SystemBinary
    }

    /// Whether the back end runs as a process of its own.
    pub open spec fn runs_process(self) -> bool {
        self != Backend::EmbeddedLibrary
    }

    /// The artifact's file name for a source with the file stem `stem`, if
    /// the back end can name it: the fixed base name where the back end uses
    /// one, else the stem, which then has to be there; and the extension.
    pub open spec fn artifact_name(self, stem: Option<Seq<char>>) -> Option<Seq<char>> {
        if !self.names_artifact_after_source() {
            Some(fixed_base_name() + artifact_extension())
        } else {
            match stem {
                Some(st) => Some(st + artifact_extension()),
                None => None,
            }
        }
    }

    /// The program that a process back end runs.
    pub open spec fn program(self) -> Seq<char> {
        if self == Backend::SystemBinary {
            system_program()
        } else {
            sidecar_program()
        }
    }

    /// The arguments that a process back end is run with, for a source at
    /// `source_path` whose artifact goes to `output_dir`. The system
    /// compiler is told the output directory and the fixed base name; the
    /// companion executable is told the output directory alone.
    pub open spec fn arguments(self, output_dir: Seq<char>, source_path: Seq<char>) -> Seq<
        Seq<char>,
    > {
        if self == Backend::SystemBinary {
            seq!["-output-directory"@, output_dir, "-jobname"@, fixed_base_name(), source_path]
        } else {
            seq!["-X"@, "compile"@, "--outdir"@, output_dir, source_path]
        }
    }

    /// The text that names the failure of a process that exited without
    /// success. The system compiler reports on its standard output, and the
    /// last non-empty line says what went wrong; the companion executable
    /// reports on standard error, which is taken whole. The embedded routine
    /// runs no process and describes its failure itself; streams handed in
    /// under its name are read as the companion's are.
    pub open spec fn diagnostic(self, stdout: Seq<u8>, stderr: Seq<u8>) -> Seq<char> {
        if self == Backend::SystemBinary {
            utf8_lossy_text(last_non_empty_line_of(stdout))
        } else {
            utf8_lossy_text(stderr)
        }
    }

    /// Whether the artifact is named after the source file.
    pub fn uses_source_name(self) -> (r: bool)
        ensures
            r == self.names_artifact_after_source(),
    {
        match self {
            Backend::SystemBinary => false,
            Backend::SidecarProcess => true,
            Backend::EmbeddedLibrary => true,
        }
    }

    /// Whether the back end runs as a process of its own.
    pub fn is_process(self) -> (r: bool)
        ensures
            r == self.runs_process(),
    {
        match self {
            Backend::SystemBinary => true,
            Backend::SidecarProcess => true,
            Backend::EmbeddedLibrary => false,
        }
    }

    /// The name of the program that a process back end runs.
    pub fn program_name(self) -> (name: String)
        ensures
            name@ == self.program(),
    {
        match self {
            Backend::SystemBinary => "pdflatex".to_owned(),
            _ => "tectonic".to_owned(),
        }
    }

    /// The argument list for compiling `source_path` into `output_dir`.
    pub fn argument_list(self, output_dir: &str, source_path: &str) -> (args: Vec<String>)
        ensures
            texts(args@) == self.arguments(output_dir@, source_path@),
    {
        let mut args: Vec<String> = Vec::new();
        match self {
            Backend::SystemBinary => {
                args.push("-output-directory".to_owned());
                args.push(output_dir.to_owned());
                args.push("-jobname".to_owned());
                args.push("preview".to_owned());
                args.push(source_path.to_owned());
            },
            _ => {
                args.push("-X".to_owned());
                args.push("compile".to_owned());
                args.push("--outdir".to_owned());
                args.push(output_dir.to_owned());
                args.push(source_path.to_owned());
            },
        }
        assert(texts(args@) =~= self.arguments(output_dir@, source_path@));
        args
    }

    /// Picks the text that names the failure out of what a process left on
    /// its two streams.
    ///
    /// Text that is valid UTF-8 is kept as it is: where the system
    /// compiler's last line, or the other back ends' standard error, is
    /// valid, the result is what those bytes encode.
    pub fn failure_text(self, stdout: &[u8], stderr: &[u8]) -> (text: String)
        ensures
            text@ == self.diagnostic(stdout@, stderr@),
            self == Backend::SystemBinary && vstd::utf8::valid_utf8(
                last_non_empty_line_of(stdout@),
            ) ==> text@ == vstd::utf8::decode_utf8(last_non_empty_line_of(stdout@)),
            self != Backend::SystemBinary && vstd::utf8::valid_utf8(stderr@) ==> text@
                == vstd::utf8::decode_utf8(stderr@),
    {
        match self {
            Backend::SystemBinary => {
                let line = last_non_empty_line(stdout);
                decode_lossy(line.as_slice())
            },
            _ => decode_lossy(stderr),
        }
    }
}

/// Where the artifact of a source goes, given the parent directory and the
/// file stem that the source path has, if it has them. A path without a
/// parent is refused first; one without a file stem is refused where the
/// back end names the artifact after the source.
pub open spec fn layout_of(
    backend: Backend,
    parent: Option<Seq<char>>,
    stem: Option<Seq<char>>,
) -> Result<LayoutView, FailureView> {
    match parent {
        None => Err(invalid_path(no_parent_message())),
        Some(dir) => match backend.artifact_name(stem) {
            None => Err(invalid_path(no_stem_message())),
            Some(file_name) => Ok(LayoutView { output_dir: dir, file_name }),
        },
    }
}

/// Derives where the artifact goes from the parent directory and the file
/// stem of the source path.
pub fn plan_layout(backend: Backend, parent: Option<String>, stem: Option<String>) -> (r: Result<
    Layout,
    Failure,
>)
    ensures
        match layout_of(backend, text_of(parent), text_of(stem)) {
            Ok(l) => r matches Ok(x) && x@ == l,
            Err(f) => r matches Err(e) && e@ == f,
        },
{
    match parent {
        None => Err(
            Failure::new(
                FailureKind::InvalidPath,
                "Invalid file path: no parent directory".to_owned(),
            ),
        ),
        Some(dir) => {
            if !backend.uses_source_name() {
                let file_name = "preview".to_owned().concat(".pdf");
                Ok(Layout { output_dir: dir, file_name })
            } else {
                match stem {
                    None => Err(
                        Failure::new(FailureKind::InvalidPath, "Invalid file name".to_owned()),
                    ),
                    Some(st) => {
                        let file_name = st.concat(".pdf");
                        Ok(Layout { output_dir: dir, file_name })
                    },
                }
            }
        },
    }
}

} // verus!
