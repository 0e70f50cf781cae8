use vulkan_engine::shader::{decode_shader, is_shader_extension, ShaderError, VKShaderLoader};

fn module_le() -> Vec<u8> {
    vec![0x03, 0x02, 0x23, 0x07, 0x01, 0x02, 0x03, 0x04, 0xff, 0x00, 0x00, 0x80]
}

fn module_be() -> Vec<u8> {
    vec![0x07, 0x23, 0x02, 0x03, 0x04, 0x03, 0x02, 0x01, 0x80, 0x00, 0x00, 0xff]
}

#[test]
fn decode_reads_little_endian_words() {
    assert_eq!(decode_shader(Some(module_le())), Ok(vec![0x0723_0203, 0x0403_0201, 0x8000_00ff]));
}

#[test]
fn decode_reads_big_endian_words() {
    assert_eq!(decode_shader(Some(module_be())), Ok(vec![0x0723_0203, 0x0403_0201, 0x8000_00ff]));
}

#[test]
fn decode_accepts_a_bare_magic_number() {
    assert_eq!(decode_shader(Some(vec![0x03, 0x02, 0x23, 0x07])), Ok(vec![0x0723_0203]));
}

#[test]
fn decode_rejects_what_is_not_spirv() {
    assert_eq!(decode_shader(Some(vec![])), Err(ShaderError::InvalidSpirv));
    assert_eq!(decode_shader(Some(vec![0x03, 0x02, 0x23])), Err(ShaderError::InvalidSpirv));
    assert_eq!(
        decode_shader(Some(vec![0x03, 0x02, 0x23, 0x07, 0x00])),
        Err(ShaderError::InvalidSpirv)
    );
    assert_eq!(
        decode_shader(Some(vec![0x03, 0x02, 0x23, 0x08, 0, 0, 0, 0])),
        Err(ShaderError::InvalidSpirv)
    );
    assert_eq!(
        decode_shader(Some(vec![0x02, 0x03, 0x07, 0x23, 0, 0, 0, 0])),
        Err(ShaderError::InvalidSpirv)
    );
}

#[test]
fn decode_reports_unreadable_files() {
    assert_eq!(decode_shader(None), Err(ShaderError::Unreadable));
}

#[test]
fn only_spirv_is_a_shader_extension() {
    assert!(is_shader_extension(&Some("spirv".to_string())));
    assert!(!is_shader_extension(&Some("spv".to_string())));
    assert!(!is_shader_extension(&Some("SPIRV".to_string())));
    assert!(!is_shader_extension(&Some(String::new())));
    assert!(!is_shader_extension(&None));
}

#[test]
fn load_shader_turns_down_other_extensions_unread() {
    let mut loader = VKShaderLoader::default();
    let loaded = loader.load_shader("shaders/triangle.spv", |_path: &str| -> Option<Vec<u8>> {
        panic!("the file must not be read")
    });
    assert_eq!(loaded, Err(ShaderError::WrongExtension));
    let loaded = loader.load_shader("shaders/spirv", |_path: &str| -> Option<Vec<u8>> {
        panic!("the file must not be read")
    });
    assert_eq!(loaded, Err(ShaderError::WrongExtension));
    let loaded = loader.load_shader("shaders/triangle.spirv.txt", |_path: &str| -> Option<Vec<u8>> {
        panic!("the file must not be read")
    });
    assert_eq!(loaded, Err(ShaderError::WrongExtension));
    assert!(loader.files.is_empty());
}

#[test]
fn load_shader_keeps_one_entry_per_path() {
    let mut loader = VKShaderLoader::default();
    for _ in 0..3 {
        let _ = loader.load_shader("a.spirv", |_path: &str| Some(module_le()));
        let _ = loader.load_shader("b.spirv", |_path: &str| None);
    }
    assert_eq!(loader.files.len(), 2);
    assert_eq!(loader.files[0].path, "a.spirv");
    assert_eq!(loader.files[1].path, "b.spirv");
}

#[test]
fn load_shader_reads_each_file_once() {
    let mut loader = VKShaderLoader::default();
    let mut reads = 0;
    let loaded = loader.load_shader("shaders/triangle.spirv", |path: &str| {
        assert_eq!(path, "shaders/triangle.spirv");
        reads += 1;
        Some(module_le())
    });
    assert_eq!(loaded, Ok(vec![0x0723_0203, 0x0403_0201, 0x8000_00ff]));
    let again = loader.load_shader("shaders/triangle.spirv", |_path: &str| {
        reads += 1;
        Some(module_be())
    });
    assert_eq!(again, loaded);
    assert_eq!(reads, 1);
    assert_eq!(loader.files.len(), 1);
    assert_eq!(loader.files[0].path, "shaders/triangle.spirv");
    assert_eq!(loader.find("shaders/triangle.spirv"), Some(0));
    assert_eq!(loader.find("shaders/other.spirv"), None);
}

#[test]
fn load_shader_remembers_failures() {
    let mut loader = VKShaderLoader::default();
    let loaded = loader.load_shader("missing.spirv", |_path: &str| None);
    assert_eq!(loaded, Err(ShaderError::Unreadable));
    let again = loader.load_shader("missing.spirv", |_path: &str| Some(module_le()));
    assert_eq!(again, Err(ShaderError::Unreadable));
    let broken = loader.load_shader("broken.spirv", |_path: &str| Some(vec![1, 2, 3, 4]));
    assert_eq!(broken, Err(ShaderError::InvalidSpirv));
    assert_eq!(loader.files.len(), 2);
    assert_eq!(loader.find("broken.spirv"), Some(1));
}

#[test]
fn load_shader_as_goes_by_the_given_extension() {
    let mut loader = VKShaderLoader::default();
    let spirv = Some("spirv".to_string());
    let loaded = loader.load_shader_as("blob", &spirv, |_path: &str| Some(module_be()));
    assert_eq!(loaded, Ok(vec![0x0723_0203, 0x0403_0201, 0x8000_00ff]));
    let loaded = loader.load_shader_as("blob.spirv", &None, |_path: &str| Some(module_be()));
    assert_eq!(loaded, Err(ShaderError::WrongExtension));
    assert_eq!(loader.files.len(), 1);
}
