//! Compiled shaders by path: which paths name a shader, how the bytes of a
//! file become SPIR-V words, and a cache that reads each file once.

use vstd::prelude::*;

verus! {

/// The first word of every SPIR-V module.
pub const SPIRV_MAGIC: u32 = 0x0723_0203;

/// Why a shader could not be loaded.
#[derive(Clone, Copy, Debug, PartialEq, Eq, Structural)]
pub enum ShaderError {
    /// The path does not end in the extension of compiled shaders.
    WrongExtension,
    /// The file could not be read.
    Unreadable,
    /// The file does not hold a SPIR-V module.
    InvalidSpirv,
}

/// One file the loader has seen, with what reading it gave.
#[derive(Debug)]
pub struct ShaderFile {
    pub path: String,
    pub code: Result<Vec<u32>, ShaderError>,
}

/// A cache of compiled shaders by path. As long as entries are only added
/// by loading, no path is on record twice.
#[derive(Debug)]
pub struct VKShaderLoader {
    pub files: Vec<ShaderFile>,
}

/// Whether no path is on record twice.
pub open spec fn paths_unique(files: Seq<ShaderFile>) -> bool {
    forall|i: int, j: int|
        0 <= i < j < files.len() ==> (#[trigger] files[i]).path@ != (#[trigger] files[j]).path@
}

/// Whether `extension` stands in `path` right behind a dot.
pub open spec fn follows_dot(path: Seq<char>, extension: Seq<char>) -> bool {
    exists|start: int|
        1 <= start && start + extension.len() <= path.len() && path[start - 1] == '.'
            && #[trigger] path.subrange(start, start + extension.len()) == extension
}

/// The extension a compiled shader's path must have.
pub open spec fn shader_extension() -> Seq<char> {
    "spirv"@
}

/// The word that starts at byte `4 * index`, least significant byte first.
pub open spec fn word_le(bytes: Seq<u8>, index: int) -> u32 {
    (bytes[4 * index] as int + bytes[4 * index + 1] as int * 0x100 + bytes[4 * index + 2] as int
        * 0x1_0000 + bytes[4 * index + 3] as int * 0x100_0000) as u32
}

/// The word that starts at byte `4 * index`, most significant byte first.
pub open spec fn word_be(bytes: Seq<u8>, index: int) -> u32 {
    (bytes[4 * index + 3] as int + bytes[4 * index + 2] as int * 0x100 + bytes[4 * index
        + 1] as int * 0x1_0000 + bytes[4 * index] as int * 0x100_0000) as u32
}

/// The SPIR-V words that `bytes` hold: the bytes are whole words, the first
/// of them the magic number in one of the two byte orders, and every word
/// is read in that order.
pub open spec fn spirv_words(bytes: Seq<u8>) -> Option<Seq<u32>> {
    if bytes.len() == 0 || bytes.len() % 4 != 0 {
        None
    } else if word_le(bytes, 0) == SPIRV_MAGIC {
        Some(Seq::new(bytes.len() / 4, |i: int| word_le(bytes, i)))
    } else if word_be(bytes, 0) == SPIRV_MAGIC {
        Some(Seq::new(bytes.len() / 4, |i: int| word_be(bytes, i)))
    } else {
        None
    }
}

/// What reading a shader file gives, from what the file held.
pub open spec fn decoded(contents: Option<Vec<u8>>) -> Result<Seq<u32>, ShaderError> {
    match contents {
        None => Err(ShaderError::Unreadable),
        Some(bytes) => match spirv_words(bytes@) {
            Some(words) => Ok(words),
            None => Err(ShaderError::InvalidSpirv),
        },
    }
}

/// What is on record in an entry, as a mathematical value.
pub open spec fn recorded(code: Result<Vec<u32>, ShaderError>) -> Result<Seq<u32>, ShaderError> {
    match code {
        Ok(words) => Ok(words@),
        Err(error) => Err(error),
    }
}

/// Whether `index` is the first entry of `files` for `path`.
pub open spec fn entry_for(files: Seq<ShaderFile>, path: Seq<char>, index: int) -> bool {
    &&& 0 <= index < files.len()
    &&& files[index].path@ == path
    &&& forall|j: int| 0 <= j < index ==> (#[trigger] files[j]).path@ != path
}

/// Whether `files` has an entry for `path`.
pub open spec fn has_entry(files: Seq<ShaderFile>, path: Seq<char>) -> bool {
    exists|i: int| 0 <= i < files.len() && (#[trigger] files[i]).path@ == path
}

/// Whether `extension` is that of a compiled shader.
pub open spec fn extension_accepted(extension: Option<String>) -> bool {
    match extension {
        Some(found) => found@ == shader_extension(),
        None => false,
    }
}

/// What loading the shader at `path` does to the record and answers, for a
/// path whose extension is or is not accepted. A path that is not accepted
/// is turned down and the record stays. An accepted path that is on record
/// is answered from its first entry and the record stays. Any other
/// accepted path is read with `read`; what the bytes decode to is answered
/// and put on record as the last entry.
pub open spec fn loaded<F: FnOnce(&str) -> Option<Vec<u8>>>(
    before: Seq<ShaderFile>,
    after: Seq<ShaderFile>,
    path: &str,
    accepted: bool,
    read: F,
    code: Result<Vec<u32>, ShaderError>,
) -> bool {
    if !accepted {
        code == Err::<Vec<u32>, ShaderError>(ShaderError::WrongExtension) && after == before
    } else if has_entry(before, path@) {
        after == before && exists|i: int|
            entry_for(before, path@, i) && recorded(code) == recorded(before[i].code)
    } else {
        exists|contents: Option<Vec<u8>>|
            {
                &&& call_ensures(read, (path,), contents)
                &&& recorded(code) == decoded(contents)
                &&& after.len() == before.len() + 1
                &&& after.drop_last() == before
                &&& after.last().path@ == path@
                &&& recorded(after.last().code) == decoded(contents)
            }
    }
}

/// `ash::util::read_spv` on a cursor over `bytes`: fails unless the bytes
/// are a whole number of 32 bit words that start with the SPIR-V magic
/// number in either byte order, and otherwise returns the words, read in
/// the byte order that the magic number was found in.
#[verifier::external_body]
pub(crate) fn read_spv_bytes(bytes: &[u8]) -> (words: Option<Vec<u32>>)
    ensures
        match words {
            Some(decoded) => spirv_words(bytes@) == Some(decoded@),
            None => spirv_words(bytes@) is None,
        },
{
    ash::util::read_spv(&mut std::io::Cursor::new(bytes)).ok()
}

/// `std::path::Path::extension` of `path`, as text. What counts as the
/// file name follows the path rules of the platform. On every platform the
/// extension is the part of the file name behind its last dot: it holds no
/// dot itself and stands in the path right behind one, so that a path
/// without a dot has none. No more than that is stated.
#[verifier::external_body]
pub(crate) fn path_extension(path: &str) -> (extension: Option<String>)
    ensures
        extension matches Some(found) ==> !found@.contains('.') && follows_dot(path@, found@),
{
    std::path::Path::new(path).extension().map(|found| found.to_string_lossy().into_owned())
}

/// Whether `extension` is that of a compiled shader.
pub fn is_shader_extension(extension: &Option<String>) -> (accepted: bool)
    ensures
        accepted == extension_accepted(*extension),
{
    match extension {
        Some(found) => {
            let wanted: String = "spirv".to_owned();
            *found == wanted
        },
        None => false,
    }
}

/// Turns the bytes of a shader file into SPIR-V words.
pub fn decode_shader(contents: Option<Vec<u8>>) -> (code: Result<Vec<u32>, ShaderError>)
    ensures
        recorded(code) == decoded(contents),
{
    match contents {
        None => Err(ShaderError::Unreadable),
        Some(bytes) => match read_spv_bytes(bytes.as_slice()) {
            Some(words) => Ok(words),
            None => Err(ShaderError::InvalidSpirv),
        },
    }
}

impl Default for VKShaderLoader {
    /// A loader that has seen no file.
    fn default() -> (loader: Self)
        ensures
            loader.files@.len() == 0,
            loader.wf(),
    {
        VKShaderLoader { files: Vec::new() }
    }
}

impl VKShaderLoader {
    /// Whether no path is on record twice.
    pub open spec fn wf(&self) -> bool {
        paths_unique(self.files@)
    }

    /// The first entry for `path`, if the loader has seen the file.
    pub fn find(&self, path: &str) -> (found: Option<usize>)
        ensures
            match found {
                Some(index) => entry_for(self.files@, path@, index as int),
                None => !has_entry(self.files@, path@),
            },
    {
        let key: String = path.to_owned();
        let mut i: usize = 0;
        while i < self.files.len()
            invariant
                i <= self.files.len(),
                key@ == path@,
                forall|j: int| 0 <= j < i ==> (#[trigger] self.files[j]).path@ != path@,
            decreases self.files.len() - i,
        {
            if self.files[i].path == key {
                return Some(i);
            }
            i += 1;
        }
        None
    }

    /// Loads the shader at `path`, whose extension is `extension`. A path
    /// with another extension than that of compiled shaders is turned down
    /// unread. A file the loader has seen is answered from the record,
    /// failures included. Any other file is read with `read`, decoded, put
    /// on record and answered. No path comes on record twice.
    pub fn load_shader_as<F: FnOnce(&str) -> Option<Vec<u8>>>(
        &mut self,
        path: &str,
        extension: &Option<String>,
        read: F,
    ) -> (code: Result<Vec<u32>, ShaderError>)
        requires
            call_requires(read, (path,)),
        ensures
            loaded(
                old(self).files@,
                final(self).files@,
                path,
                extension_accepted(*extension),
                read,
                code,
            ),
            old(self).wf() ==> final(self).wf(),
    {
        if !is_shader_extension(extension) {
            return Err(ShaderError::WrongExtension);
        }
        match self.find(path) {
            Some(index) => {
                match &self.files[index].code {
                    Ok(words) => Ok(words.clone()),
                    Err(error) => Err(*error),
                }
            },
            None => {
                let contents = read(path);
                let code = decode_shader(contents);
                let answer = match &code {
                    Ok(words) => Ok(words.clone()),
                    Err(error) => Err(*error),
                };
                let ghost before = self.files@;
                self.files.push(ShaderFile { path: path.to_owned(), code });
                proof {
                    assert(self.files@.drop_last() =~= before);
                }
                answer
            },
        }
    }

    /// Loads the shader at `path`: as `load_shader_as` does, with the
    /// extension that the platform's path rules find in `path`. Whatever
    /// they find, the path is either turned down or loaded as an accepted
    /// one; a path in which the extension of compiled shaders nowhere
    /// stands behind a dot is always turned down.
    pub fn load_shader<F: FnOnce(&str) -> Option<Vec<u8>>>(&mut self, path: &str, read: F) -> (code:
        Result<Vec<u32>, ShaderError>)
        requires
            call_requires(read, (path,)),
        ensures
            loaded(old(self).files@, final(self).files@, path, false, read, code) || loaded(
                old(self).files@,
                final(self).files@,
                path,
                true,
                read,
                code,
            ),
            !follows_dot(path@, shader_extension()) ==> loaded(
                old(self).files@,
                final(self).files@,
                path,
                false,
                read,
                code,
            ),
            old(self).wf() ==> final(self).wf(),
    {
        let extension = path_extension(path);
        self.load_shader_as(path, &extension, read)
    }
}

} // verus!
