use diene::shader::{spirv_words, ShaderCompileError};

#[test]
fn converts_spirv_bytes_to_words() {
    assert_eq!(spirv_words("test", &[1, 0, 0, 0, 2, 0, 0, 0]).ok(), Some(vec![1, 2]));
}

#[test]
fn rejects_spirv_byte_count_not_aligned_to_word_size() {
    assert!(matches!(
        spirv_words("test", &[1, 2, 3]),
        Err(ShaderCompileError::InvalidSpirvBytecode { len: 3, .. })
    ));
}
