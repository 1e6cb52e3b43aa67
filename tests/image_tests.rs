use os_image::error::Error;
use os_image::image::Image;

fn image(block_size: u16, block_count: u32) -> Image {
    Image::create(String::from("image.img"), block_size, block_count).unwrap()
}

#[test]
fn create_default_image() {
    let img = image(512, 93750);
    assert_eq!(img.path(), "image.img");
    assert_eq!(img.block_size(), 512);
    assert_eq!(img.block_count(), 93750);
    // FAT32: 32 reserved blocks and two 733-block tables
    assert_eq!(img.table_entry_bits(), 32);
    assert_eq!(img.data_blocks(), 93750 - 1498);
    assert_eq!(img.used_blocks(), 0);
    assert_eq!(img.file_count(), 0);
}

#[test]
fn too_small_image_is_refused() {
    assert!(matches!(Image::create(String::from("i"), 512, 10), Err(Error::ImageTooSmall)));
    assert!(matches!(Image::create(String::from("i"), 512, 35), Err(Error::ImageTooSmall)));
    assert!(matches!(Image::create(String::from("i"), 512, 0), Err(Error::ImageTooSmall)));
    assert_eq!(image(512, 36).data_blocks(), 1);
    assert!(matches!(Image::create(String::from("i"), 1024, 19), Err(Error::ImageTooSmall)));
    assert_eq!(image(1024, 20).data_blocks(), 1);
    assert!(matches!(Image::create(String::from("i"), 4096, 7), Err(Error::ImageTooSmall)));
    assert_eq!(image(4096, 8).data_blocks(), 1);
}

#[test]
fn too_small_comes_before_block_size() {
    assert!(matches!(Image::create(String::from("i"), 500, 1), Err(Error::ImageTooSmall)));
    assert!(matches!(Image::create(String::from("i"), 0, 93750), Err(Error::ImageTooSmall)));
    assert!(matches!(Image::create(String::from("i"), 100, 184), Err(Error::ImageTooSmall)));
    assert!(matches!(Image::create(String::from("i"), 100, 185), Err(Error::InvalidParameter(_))));
}

#[test]
fn variant_follows_cluster_count() {
    let small = image(512, 4000);
    assert_eq!(small.table_entry_bits(), 12);
    let fat16 = image(512, 10000);
    assert_eq!(fat16.table_entry_bits(), 16);
    assert_eq!(fat16.data_blocks(), 10000 - 113);
    assert_eq!(image(512, 66000).table_entry_bits(), 16);
    assert_eq!(image(512, 66000).data_blocks(), 65451);
    let fat32 = image(512, 70000);
    assert_eq!(fat32.table_entry_bits(), 32);
    assert_eq!(fat32.data_blocks(), 68874);
}

#[test]
fn fat32_root_directory_takes_clusters() {
    let mut img = image(512, 70000);
    let data = img.data_blocks() as usize;
    // the root directory's first cluster leaves data - 1 blocks for files
    assert!(matches!(img.copy_into("big", Some(vec![0; data * 512]), "BIG"), Err(Error::OutOfSpace)));
    img.copy_into("big", Some(vec![0; (data - 1) * 512]), "BIG").unwrap();
    // sixteen entries fill one 512-byte cluster; the seventeenth needs a second
    for i in 0..15 {
        img.copy_into("empty", Some(Vec::new()), &format!("F{}", i)).unwrap();
    }
    assert_eq!(img.file_count(), 16);
    assert!(matches!(img.copy_into("empty", Some(Vec::new()), "F15"), Err(Error::OutOfSpace)));
    assert_eq!(img.file_count(), 16);
}

#[test]
fn odd_block_size_is_refused() {
    assert!(matches!(Image::create(String::from("i"), 500, 93750), Err(Error::InvalidParameter(_))));
    assert_eq!(image(4096, 1000).block_size(), 4096);
}

#[test]
fn copied_file_reads_back() {
    let mut img = image(512, 93750);
    let kernel: Vec<u8> = (0..2000u32).map(|i| (i % 251) as u8).collect();
    img.copy_into("target/kernel", Some(kernel.clone()), "EFI/BOOT/KERNEL.ELF").unwrap();
    img.copy_into("target/loader.efi", Some(vec![1, 2, 3]), "EFI/BOOT/BOOTX64.EFI").unwrap();
    assert_eq!(img.read("EFI/BOOT/KERNEL.ELF"), Some(kernel));
    assert_eq!(img.read("EFI/BOOT/BOOTX64.EFI"), Some(vec![1, 2, 3]));
    assert_eq!(img.read("EFI/BOOT/OTHER"), None);
    assert_eq!(img.used_blocks(), 4 + 1);
    assert_eq!(img.file_count(), 2);
}

#[test]
fn later_copy_overwrites() {
    let mut img = image(512, 93750);
    img.copy_into("a", Some(vec![0; 1500]), "EFI/BOOT/KERNEL.ELF").unwrap();
    img.copy_into("b", Some(vec![9; 10]), "EFI/BOOT/KERNEL.ELF").unwrap();
    assert_eq!(img.read("EFI/BOOT/KERNEL.ELF"), Some(vec![9; 10]));
    assert_eq!(img.file_count(), 1);
    assert_eq!(img.used_blocks(), 1);
}

#[test]
fn copy_past_capacity_is_refused() {
    let mut img = image(512, 36);
    img.copy_into("a", Some(vec![7; 512]), "A").unwrap();
    assert!(matches!(img.copy_into("b", Some(vec![1]), "B"), Err(Error::OutOfSpace)));
    assert_eq!(img.read("B"), None);
    assert_eq!(img.read("A"), Some(vec![7; 512]));
    assert_eq!(img.used_blocks(), 1);
    assert!(matches!(img.copy_into("a", Some(vec![7; 513]), "A"), Err(Error::OutOfSpace)));
    assert_eq!(img.read("A"), Some(vec![7; 512]));
    img.copy_into("a", Some(vec![8; 512]), "A").unwrap();
    assert_eq!(img.read("A"), Some(vec![8; 512]));
}

#[test]
fn directory_table_is_bounded() {
    let mut img = image(512, 36);
    for i in 0..512 {
        img.copy_into("empty", Some(Vec::new()), &format!("F{}", i)).unwrap();
    }
    assert!(matches!(img.copy_into("empty", Some(Vec::new()), "F512"), Err(Error::OutOfSpace)));
    assert_eq!(img.file_count(), 512);
    img.copy_into("empty", Some(Vec::new()), "F3").unwrap();
}

#[test]
fn missing_host_artifact() {
    let mut img = image(512, 93750);
    match img.copy_into("target/x86_64-unknown-none/debug/kernel", None, "EFI/BOOT/KERNEL.ELF") {
        Err(Error::HostArtifactMissing(p)) => assert_eq!(p, "target/x86_64-unknown-none/debug/kernel"),
        other => panic!("{:?}", other),
    }
    assert_eq!(img.file_count(), 0);
}
