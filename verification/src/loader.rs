//! Loading a shader: what kind of file a path names, where an include is
//! found, and the shader that a successful load gives.

use vstd::prelude::*;
use crate::preprocessor::{same_text, ExtractError};
use crate::shader::{Shader, ShaderMetadata};

verus! {

/// The GLSL version that a shader is read and compiled as.
pub const GLSL_VERSION: u16 = 460;

/// The name of the entry point of a shader.
pub const ENTRY_POINT: &'static str = "main";

/// The name under which the built-in header is known to the compiler.
pub const STANDARD_HEADER_NAME: &'static str = "NUANCE_STD";

/// The kinds of shader files.
#[derive(Clone, Copy, Debug, PartialEq, Eq, Structural)]
pub enum ShaderFormat {
    /// A compiled module, `.spv`
    SpirV,
    /// GLSL source, `.glsl` or `.frag`
    Glsl,
    /// WGSL source, `.wgsl`
    Wgsl,
}

/// Why a shader could not be loaded.
#[derive(Clone, Debug)]
pub enum LoadError {
    /// The file is of no kind that can be loaded
    UnsupportedFormat,
    /// The file could not be read
    Io(String),
    /// The source is no GLSL
    Parse(String),
    /// The parameters could not be read
    Extraction(ExtractError),
    /// The compiler refused the source
    Compile(String),
}

/// How a source names the file it includes.
#[derive(Clone, Copy, Debug, PartialEq, Eq, Structural)]
pub enum IncludeType {
    /// `#include "name"`
    Relative,
    /// `#include <name>`
    Standard,
}

/// Where the content of an include comes from.
#[derive(Clone, Copy, Debug, PartialEq, Eq, Structural)]
pub enum IncludeSource {
    /// The built-in header
    Standard,
    /// The directory of the including file
    SourceDir,
    /// The include directory with this index
    IncludeDir(usize),
}

/// Why an include could not be resolved.
#[derive(Clone, Copy, Debug, PartialEq, Eq, Structural)]
pub enum IncludeError {
    NotFound,
    NoStandardInclude,
}

impl IncludeError {
    /// A sentence for the compiler's diagnostics.
    pub fn message(&self) -> (text: &'static str)
        ensures
            text@ == match *self {
                IncludeError::NotFound => "Include not found !"@,
                IncludeError::NoStandardInclude => "No standard include with this name !"@,
            },
    {
        match self {
            IncludeError::NotFound => "Include not found !",
            IncludeError::NoStandardInclude => "No standard include with this name !",
        }
    }
}

/// The kind of file that an extension stands for.
pub open spec fn format_of(extension: Option<Seq<char>>) -> Option<ShaderFormat> {
    match extension {
        None => None,
        Some(e) => if e == "spv"@ {
            Some(ShaderFormat::SpirV)
        } else if e == "glsl"@ || e == "frag"@ {
            Some(ShaderFormat::Glsl)
        } else if e == "wgsl"@ {
            Some(ShaderFormat::Wgsl)
        } else {
            None
        },
    }
}

/// The index of the first `true` from `from` on.
pub open spec fn first_existing(exists: Seq<bool>, from: int) -> Option<int>
    decreases exists.len() - from,
{
    if from < 0 || from >= exists.len() {
        None
    } else if exists[from] {
        Some(from)
    } else {
        first_existing(exists, from + 1)
    }
}

/// Where an include is found. The standard include `Nuance` is the built-in
/// header, and there is no other. A relative include is looked for in the
/// directory of the including file, then in each include directory in
/// order; the first place that has the file gives it.
pub open spec fn include_found(
    include_type: IncludeType,
    name: Seq<char>,
    local_exists: bool,
    dir_exists: Seq<bool>,
) -> Result<IncludeSource, IncludeError> {
    match include_type {
        IncludeType::Standard => if name == "Nuance"@ {
            Ok(IncludeSource::Standard)
        } else {
            Err(IncludeError::NoStandardInclude)
        },
        IncludeType::Relative => if local_exists {
            Ok(IncludeSource::SourceDir)
        } else {
            match first_existing(dir_exists, 0) {
                Some(i) => Ok(IncludeSource::IncludeDir(i as usize)),
                None => Err(IncludeError::NotFound),
            }
        },
    }
}

/// The first place that has a file is one that has it, and none before it
/// has.
pub proof fn lemma_first_existing(exists: Seq<bool>, from: int)
    requires
        0 <= from,
    ensures
        match first_existing(exists, from) {
            Some(i) => from <= i < exists.len() && exists[i] && forall|j: int|
                from <= j < i ==> !#[trigger] exists[j],
            None => forall|j: int| from <= j < exists.len() ==> !#[trigger] exists[j],
        },
    decreases exists.len() - from,
{
    if from < exists.len() && !exists[from] {
        lemma_first_existing(exists, from + 1);
    }
}

/// The extension of a path, by `Path::extension` of the standard library.
/// How a path splits into directories depends on the platform, so nothing
/// is stated of the result.
#[verifier::external_body]
fn path_extension(path: &str) -> (extension: Option<String>) {
    std::path::Path::new(path).extension().and_then(|e| e.to_str()).map(|e| e.to_string())
}

/// The kind of file that an extension stands for.
pub fn shader_format(extension: Option<&str>) -> (r: Result<ShaderFormat, LoadError>)
    ensures
        match format_of(
            match extension {
                Some(e) => Some(e@),
                None => None,
            },
        ) {
            Some(format) => r is Ok && r->Ok_0 == format,
            None => r is Err && r->Err_0 is UnsupportedFormat,
        },
{
    match extension {
        Some(e) => {
            if same_text(e, "spv") {
                Ok(ShaderFormat::SpirV)
            } else if same_text(e, "glsl") || same_text(e, "frag") {
                Ok(ShaderFormat::Glsl)
            } else if same_text(e, "wgsl") {
                Ok(ShaderFormat::Wgsl)
            } else {
                Err(LoadError::UnsupportedFormat)
            }
        },
        None => Err(LoadError::UnsupportedFormat),
    }
}

/// The words of a compiled module: one for each byte of the file, with the
/// value of the byte.
pub fn spirv_words(bytes: &Vec<u8>) -> (words: Vec<u32>)
    ensures
        words@.len() == bytes@.len(),
        forall|i: int| 0 <= i < bytes@.len() ==> #[trigger] words@[i] == bytes@[i] as u32,
{
    let mut words: Vec<u32> = Vec::new();
    let mut i: usize = 0;
    while i < bytes.len()
        invariant
            i <= bytes.len(),
            words@.len() == i,
            forall|k: int| 0 <= k < i ==> #[trigger] words@[k] == bytes@[k] as u32,
        decreases bytes.len() - i,
    {
        words.push(bytes[i] as u32);
        i = i + 1;
    }
    words
}

/// Finds and compiles shaders. The compiler itself is the caller's; the
/// loader keeps the directories in which includes are looked for.
#[derive(Clone, Debug)]
pub struct ShaderLoader {
    include_dirs: Vec<String>,
}

impl ShaderLoader {
    /// The include directories, in the order in which they were added.
    pub closed spec fn spec_include_dirs(self) -> Seq<String> {
        self.include_dirs@
    }

    /// A loader without include directories.
    pub fn new() -> (loader: ShaderLoader)
        ensures
            loader.spec_include_dirs() == Seq::<String>::empty(),
    {
        ShaderLoader { include_dirs: Vec::new() }
    }

    /// Adds a directory behind those already known.
    pub fn add_include_dir(&mut self, dir: &str)
        ensures
            final(self).spec_include_dirs().len() == old(self).spec_include_dirs().len() + 1,
            final(self).spec_include_dirs().drop_last() == old(self).spec_include_dirs(),
            final(self).spec_include_dirs().last()@ == dir@,
    {
        self.include_dirs.push(dir.to_owned());
        assert(self.include_dirs@.drop_last() =~= old(self).include_dirs@);
    }

    /// The include directories, in the order in which they were added.
    pub fn include_dirs(&self) -> (dirs: &Vec<String>)
        ensures
            dirs@ == self.spec_include_dirs(),
    {
        &self.include_dirs
    }

    /// The kind of file that a path names, by its extension.
    pub fn format_of_path(&self, path: &str) -> (r: Result<ShaderFormat, LoadError>)
        ensures
            r is Err ==> r->Err_0 is UnsupportedFormat,
            exists|extension: Option<Seq<char>>|
                match #[trigger] format_of(extension) {
                    Some(format) => r is Ok && r->Ok_0 == format,
                    None => r is Err,
                },
    {
        let extension = path_extension(path);
        let ghost seen: Option<Seq<char>> = match &extension {
            Some(e) => Some(e@),
            None => None,
        };
        let r = match &extension {
            Some(e) => shader_format(Some(e.as_str())),
            None => shader_format(None),
        };
        assert(match format_of(seen) {
            Some(format) => r is Ok && r->Ok_0 == format,
            None => r is Err,
        });
        r
    }

    /// Resolves an include. `local_exists` says whether the directory of the
    /// including file has the file, and `dir_exists` the same of each
    /// include directory.
    pub fn find_include(
        &self,
        name: &str,
        include_type: IncludeType,
        local_exists: bool,
        dir_exists: &Vec<bool>,
    ) -> (r: Result<IncludeSource, IncludeError>)
        ensures
            r == include_found(include_type, name@, local_exists, dir_exists@),
    {
        match include_type {
            IncludeType::Standard => {
                if same_text(name, "Nuance") {
                    Ok(IncludeSource::Standard)
                } else {
                    Err(IncludeError::NoStandardInclude)
                }
            },
            IncludeType::Relative => {
                if local_exists {
                    return Ok(IncludeSource::SourceDir);
                }
                let mut i: usize = 0;
                while i < dir_exists.len()
                    invariant
                        i <= dir_exists.len(),
                        include_type == IncludeType::Relative,
                        !local_exists,
                        first_existing(dir_exists@, 0) == first_existing(dir_exists@, i as int),
                    decreases dir_exists.len() - i,
                {
                    if dir_exists[i] {
                        return Ok(IncludeSource::IncludeDir(i));
                    }
                    i = i + 1;
                }
                Err(IncludeError::NotFound)
            },
        }
    }
}

impl Default for ShaderLoader {
    fn default() -> (loader: ShaderLoader)
        ensures
            loader.spec_include_dirs() == Seq::<String>::empty(),
    {
        ShaderLoader::new()
    }
}

impl Shader {
    /// The shader that a successful load of `path` gives. Only GLSL source
    /// declares parameters: a shader of another kind has no metadata.
    pub fn loaded(path: &str, format: ShaderFormat, metadata: Option<ShaderMetadata>) -> (shader:
        Shader)
        ensures
            shader.main@ == path@,
            shader.sources@.len() == 1,
            shader.sources@[0]@ == path@,
            shader.metadata == (if format == ShaderFormat::Glsl {
                metadata
            } else {
                None
            }),
    {
        let mut sources: Vec<String> = Vec::new();
        sources.push(path.to_owned());
        Shader {
            main: path.to_owned(),
            sources,
            metadata: match format {
                ShaderFormat::Glsl => metadata,
                _ => None,
            },
        }
    }
}

} // verus!
