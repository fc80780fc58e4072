use nes_emu::rom_file::{copy_range, LoadError, MapperSupport, RomFile};

fn sample(prg_banks: u8, chr_banks: u8, flags6: u8, flags7: u8) -> RomFile {
    let mut data = vec![0x4E, 0x45, 0x53, 0x1A, prg_banks, chr_banks, flags6, flags7];
    data.resize(16, 0);
    let trainer = if flags6 & 0x04 != 0 { 512 } else { 0 };
    let body = trainer + prg_banks as usize * 16384 + chr_banks as usize * 8192;
    for i in 0..body {
        data.push((i % 249) as u8);
    }
    RomFile::new(String::from("sample.nes"), data)
}

#[test]
fn new_keeps_path_and_data() {
    let rom = RomFile::new(String::from("a/b.nes"), vec![1, 2, 3]);
    assert_eq!(rom.file_path, "a/b.nes");
    assert_eq!(rom.data, vec![1, 2, 3]);
}

#[test]
fn signature_is_recognised() {
    assert!(sample(1, 1, 0, 0).is_nes());
    assert!(RomFile::new(String::new(), vec![0x4E, 0x45, 0x53, 0x1A]).is_nes());
}

#[test]
fn wrong_or_short_signature_is_not_recognised() {
    assert!(!RomFile::new(String::new(), vec![]).is_nes());
    assert!(!RomFile::new(String::new(), vec![0x4E, 0x45, 0x53]).is_nes());
    assert!(!RomFile::new(String::new(), vec![0x4F, 0x45, 0x53, 0x1A]).is_nes());
    assert!(!RomFile::new(String::new(), vec![0x4E, 0x46, 0x53, 0x1A]).is_nes());
    assert!(!RomFile::new(String::new(), vec![0x4E, 0x45, 0x54, 0x1A]).is_nes());
    assert!(!RomFile::new(String::new(), vec![0x4E, 0x45, 0x53, 0x1B, 0, 0, 0, 0]).is_nes());
}

#[test]
fn sizes_are_counted_in_banks() {
    let rom = sample(2, 1, 0, 0);
    assert_eq!(rom.raw_prg_size(), 2);
    assert_eq!(rom.prg_size(), 32768);
    assert_eq!(rom.raw_chr_size(), 1);
    assert_eq!(rom.chr_size(), 8192);
}

#[test]
fn sizes_of_large_cartridges_do_not_overflow() {
    let mut data = vec![0x4E, 0x45, 0x53, 0x1A, 255, 255, 0, 0];
    data.resize(16, 0);
    let rom = RomFile::new(String::new(), data);
    assert_eq!(rom.prg_size(), 255 * 16384);
    assert_eq!(rom.chr_size(), 255 * 8192);
    assert_eq!(rom.chr_data_address(), 16 + 255 * 16384);
}

#[test]
fn trainer_bit_moves_the_program() {
    let plain = sample(1, 1, 0, 0);
    assert!(!plain.has_trainer());
    assert_eq!(plain.prg_data_address(), 16);
    assert_eq!(plain.chr_data_address(), 16 + 16384);
    let trained = sample(1, 1, 0b0000_0100, 0);
    assert!(trained.has_trainer());
    assert_eq!(trained.prg_data_address(), 528);
    assert_eq!(trained.chr_data_address(), 528 + 16384);
    // the other flag bits do not count
    assert!(!sample(1, 1, 0b1111_1011, 0).has_trainer());
}

#[test]
fn program_and_graphics_data_are_cut_out() {
    let rom = sample(1, 1, 0, 0);
    let prg = rom.prg_data();
    assert_eq!(prg.len(), 16384);
    assert_eq!(prg[0], 0);
    assert_eq!(prg[300], (300 % 249) as u8);
    assert_eq!(&prg[..], &rom.data[16..16 + 16384]);
    let chr = rom.chr_data();
    assert_eq!(chr.len(), 8192);
    assert_eq!(chr[0], (16384 % 249) as u8);
    assert_eq!(&chr[..], &rom.data[16 + 16384..16 + 16384 + 8192]);
}

#[test]
fn data_behind_a_trainer_is_cut_out() {
    let rom = sample(1, 1, 0b0000_0100, 0);
    let prg = rom.prg_data();
    assert_eq!(prg.len(), 16384);
    assert_eq!(prg[0], (512 % 249) as u8);
    let chr = rom.chr_data();
    assert_eq!(chr[0], ((512 + 16384) % 249) as u8);
}

#[test]
fn empty_banks_give_empty_data() {
    let rom = sample(0, 0, 0, 0);
    assert_eq!(rom.prg_data(), Vec::<u8>::new());
    assert_eq!(rom.chr_data(), Vec::<u8>::new());
}

#[test]
fn mapper_number_joins_two_nibbles() {
    assert_eq!(sample(1, 0, 0x00, 0x00).get_mapper_type(), 0);
    assert_eq!(sample(1, 0, 0x10, 0x00).get_mapper_type(), 1);
    assert_eq!(sample(1, 0, 0x40, 0x00).get_mapper_type(), 4);
    assert_eq!(sample(1, 0, 0x00, 0x40).get_mapper_type(), 0x40);
    assert_eq!(sample(1, 0, 0xF0, 0xF0).get_mapper_type(), 0xFF);
    assert_eq!(sample(1, 0, 0x2F, 0x1F).get_mapper_type(), 0x12);
}

#[test]
fn only_mapper_zero_is_supported() {
    assert_eq!(sample(1, 0, 0x0B, 0x0F).mapper_support(), MapperSupport::Supported);
    assert_eq!(sample(1, 0, 0x10, 0x00).mapper_support(), MapperSupport::Unsupported);
    assert_eq!(sample(1, 0, 0x00, 0x10).mapper_support(), MapperSupport::Unsupported);
}

#[test]
fn copy_range_copies_the_half_open_range() {
    let data = vec![10, 11, 12, 13, 14];
    assert_eq!(copy_range(&data, 1, 4), vec![11, 12, 13]);
    assert_eq!(copy_range(&data, 0, 5), data);
    assert_eq!(copy_range(&data, 3, 3), Vec::<u8>::new());
    assert_eq!(copy_range(&data, 5, 5), Vec::<u8>::new());
}

#[test]
fn load_errors_are_distinct() {
    assert_ne!(LoadError::BadSignature, LoadError::Truncated);
    assert_ne!(LoadError::ProgramTooLarge, LoadError::GraphicsTooLarge);
}
