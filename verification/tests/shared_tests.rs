use il2_utils::fs::shared::DefaultSharedFileLockNameBuilder;

#[test]
fn test_defaultsharedfilelocknamebuilder_impl() {
    assert_eq!(DefaultSharedFileLockNameBuilder::LOCK_FILE_PREFIX, ".");
    assert_eq!(DefaultSharedFileLockNameBuilder::LOCK_FILE_SUFFIX, ".lock~");
}

#[test]
fn test_defaultsharedfilelocknamebuilder_namebuilder_create_lock_file_name() {
    let b = DefaultSharedFileLockNameBuilder;

    let name = "file";
    assert_eq!(b.create_lock_file_name(name), ".file.lock~");

    let name = "z";
    assert_eq!(b.create_lock_file_name(name), ".z.lock~");
}

#[test]
fn lock_file_name_of_an_empty_name() {
    let b = DefaultSharedFileLockNameBuilder;
    assert_eq!(b.create_lock_file_name(""), "..lock~");
}
