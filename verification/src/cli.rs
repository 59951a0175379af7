//! The command-line arguments and what the tool does with them.

use std::path::PathBuf;

use vstd::prelude::*;

verus! {

#[verifier::external_type_specification]
#[verifier::external_body]
pub struct ExPathBuf(std::path::PathBuf);

/// The arguments of `tiedye [--info] [SHADER] [IMAGE...] [--output PATH]`.
pub struct Cli {
    /// Path to the WGSL shader file; the parser demands it unless `info` is
    /// set.
    pub shader: Option<PathBuf>,
    /// Optional input image(s) to apply the shader to.
    pub images: Vec<PathBuf>,
    /// Output file path.
    pub output: Option<PathBuf>,
    /// Print the guide to writing shaders for the tool instead of rendering.
    pub info: bool,
}

/// File the output goes to when no path is given and standard output is a
/// terminal.
pub const DEFAULT_OUTPUT_FILE: &'static str = "output.png";

/// Where the rendered PNG goes.
pub enum Destination {
    /// The file at the path given with `--output`.
    Path(PathBuf),
    /// [`DEFAULT_OUTPUT_FILE`] in the current directory.
    DefaultFile,
    /// The PNG bytes are written to standard output.
    Stdout,
}

/// What one run of the tool does.
pub enum Invocation {
    /// Print the guide to writing shaders.
    PrintInfo,
    /// Render `shader` over `images` and send the PNG to `destination`.
    Render { shader: PathBuf, images: Vec<PathBuf>, destination: Destination },
}

/// An explicit output path wins; otherwise a pipe on standard output gets the
/// PNG bytes and a terminal gets [`DEFAULT_OUTPUT_FILE`].
pub open spec fn destination_for(output: Option<PathBuf>, stdout_is_terminal: bool) -> Destination {
    match output {
        Some(path) => Destination::Path(path),
        None => if stdout_is_terminal {
            Destination::DefaultFile
        } else {
            Destination::Stdout
        },
    }
}

/// Where the output goes, given the `--output` argument and whether standard
/// output is a terminal.
pub fn destination(output: Option<PathBuf>, stdout_is_terminal: bool) -> (dest: Destination)
    ensures
        dest == destination_for(output, stdout_is_terminal),
{
    match output {
        Some(path) => Destination::Path(path),
        None => if stdout_is_terminal {
            Destination::DefaultFile
        } else {
            Destination::Stdout
        },
    }
}

/// Law: the output table. An `--output` path gets the PNG, whatever standard
/// output is; otherwise a terminal on standard output sends it to
/// `output.png` and a pipe gets the PNG bytes.
pub proof fn lemma_output_table(output: Option<PathBuf>, stdout_is_terminal: bool)
    ensures
        output matches Some(path) ==> destination_for(output, stdout_is_terminal)
            == Destination::Path(path),
        output is None && stdout_is_terminal ==> destination_for(output, stdout_is_terminal)
            is DefaultFile,
        output is None && !stdout_is_terminal ==> destination_for(output, stdout_is_terminal)
            is Stdout,
        DEFAULT_OUTPUT_FILE@ == "output.png"@,
{
}

impl Cli {
    /// What the arguments ask for: the guide with `--info`, otherwise a render
    /// of the shader over the images to the destination.
    pub fn invocation(self, stdout_is_terminal: bool) -> (invocation: Invocation)
        requires
            self.info || self.shader is Some,
        ensures
            self.info ==> invocation is PrintInfo,
            !self.info ==> invocation == (Invocation::Render {
                shader: self.shader->Some_0,
                images: self.images,
                destination: destination_for(self.output, stdout_is_terminal),
            }),
    {
        if self.info {
            return Invocation::PrintInfo;
        }
        match self.shader {
            Some(shader) => Invocation::Render {
                shader,
                images: self.images,
                destination: destination(self.output, stdout_is_terminal),
            },
            None => Invocation::PrintInfo,
        }
    }
}

} // verus!
