use hwinfo::battery::{Battery, RawBattery};
use hwinfo::cpu::{Cpu, RawCpu};
use hwinfo::disk::{Disk, RawDisk};
use hwinfo::error::HwinfoError;
use hwinfo::foreign::ForeignArray;
use hwinfo::gpu::{Gpu, RawGpu};
use hwinfo::mainboard::{MainBoard, RawMainBoard};
use hwinfo::memory::{MemoryInfo, RamModule, RawMemoryInfo, RawRamModule};
use hwinfo::network::{Network, RawNetwork};
use hwinfo::os::{Os, RawOs};
use hwinfo::record::{decode_all, decode_array, Record};

fn text(s: &str) -> Option<Vec<u8>> {
    Some(s.as_bytes().to_vec())
}

fn texts(items: &[&str]) -> ForeignArray<Option<Vec<u8>>> {
    ForeignArray {
        is_null: false,
        count: items.len() as i32,
        items: items.iter().map(|s| text(s)).collect(),
    }
}

fn no_texts() -> ForeignArray<Option<Vec<u8>>> {
    ForeignArray { is_null: true, count: 0, items: Vec::new() }
}

fn raw_cpu() -> RawCpu {
    RawCpu {
        id: 0,
        vendor: text("GenuineIntel"),
        model_name: text("Intel(R) Core(TM) i7"),
        num_physical_cores: 8,
        num_logical_cores: 16,
        max_clock_speed_mhz: 4700,
        regular_clock_speed_mhz: 2900,
        l1_cache_size_bytes: 65536,
        l2_cache_size_bytes: 262144,
        l3_cache_size_bytes: 16777216,
        flags: texts(&["fpu", "sse2", "avx2"]),
    }
}

fn module(id: i32) -> RawRamModule {
    RawRamModule {
        id,
        vendor: text("Corsair"),
        name: None,
        model: text("CMK16GX4M2B3200C16"),
        serial_number: None,
        total_bytes: 8589934592,
        frequency_hz: 3200000000,
    }
}

#[test]
fn cpu_fields_copied_and_decoded() {
    let cpu = Cpu::from_raw(&raw_cpu()).unwrap();
    assert_eq!(cpu.id, 0);
    assert_eq!(cpu.vendor, "GenuineIntel");
    assert_eq!(cpu.model_name, "Intel(R) Core(TM) i7");
    assert_eq!(cpu.num_physical_cores, 8);
    assert_eq!(cpu.num_logical_cores, 16);
    assert_eq!(cpu.max_clock_speed_mhz, 4700);
    assert_eq!(cpu.regular_clock_speed_mhz, 2900);
    assert_eq!(cpu.l1_cache_size_bytes, 65536);
    assert_eq!(cpu.l2_cache_size_bytes, 262144);
    assert_eq!(cpu.l3_cache_size_bytes, 16777216);
    assert_eq!(cpu.flags, vec!["fpu", "sse2", "avx2"]);
}

#[test]
fn cpu_null_text_field_is_empty() {
    let mut raw = raw_cpu();
    raw.vendor = None;
    let cpu = Cpu::from_raw(&raw).unwrap();
    assert_eq!(cpu.vendor, "");
    assert_eq!(cpu.model_name, "Intel(R) Core(TM) i7");
}

#[test]
fn cpu_null_flags_are_empty() {
    let mut raw = raw_cpu();
    raw.flags = no_texts();
    let cpu = Cpu::from_raw(&raw).unwrap();
    assert!(cpu.flags.is_empty());
}

#[test]
fn cpu_invalid_model_name_fails() {
    let mut raw = raw_cpu();
    raw.model_name = Some(vec![b'i', 0xff, b'7']);
    assert!(matches!(Cpu::from_raw(&raw), Err(HwinfoError::InvalidString(_))));
}

#[test]
fn cpu_invalid_flag_fails() {
    let mut raw = raw_cpu();
    raw.flags.items[1] = Some(vec![0xc3]);
    assert!(matches!(Cpu::from_raw(&raw), Err(HwinfoError::InvalidString(_))));
}

#[test]
fn os_converts() {
    let raw = RawOs {
        name: text("Ubuntu"),
        version: text("24.04"),
        kernel: None,
        is_32_bit: false,
        is_64_bit: true,
        is_little_endian: true,
    };
    let os = Os::from_raw(&raw).unwrap();
    assert_eq!(os.name, "Ubuntu");
    assert_eq!(os.version, "24.04");
    assert_eq!(os.kernel, "");
    assert!(!os.is_32_bit);
    assert!(os.is_64_bit);
    assert!(os.is_little_endian);
}

#[test]
fn gpu_converts_and_rejects_bad_text() {
    let mut raw = RawGpu {
        id: 1,
        vendor: text("NVIDIA"),
        name: text("GeForce RTX 4070"),
        driver_version: text("550.54"),
        memory_bytes: 12884901888,
        frequency_mhz: 2475,
        num_cores: 5888,
        vendor_id: text("10de"),
        device_id: text("2786"),
    };
    let gpu = Gpu::from_raw(&raw).unwrap();
    assert_eq!(gpu.id, 1);
    assert_eq!(gpu.vendor, "NVIDIA");
    assert_eq!(gpu.name, "GeForce RTX 4070");
    assert_eq!(gpu.driver_version, "550.54");
    assert_eq!(gpu.memory_bytes, 12884901888);
    assert_eq!(gpu.frequency_mhz, 2475);
    assert_eq!(gpu.num_cores, 5888);
    assert_eq!(gpu.vendor_id, "10de");
    assert_eq!(gpu.device_id, "2786");
    raw.device_id = Some(vec![0xed, 0xa0, 0x80]);
    assert!(matches!(Gpu::from_raw(&raw), Err(HwinfoError::InvalidString(_))));
}

#[test]
fn mainboard_converts_non_ascii_text() {
    let raw = RawMainBoard {
        vendor: text("Gigabyte"),
        name: text("B650 AORUS ÉLITE"),
        version: None,
        serial_number: text("SN-1"),
    };
    let mb = MainBoard::from_raw(&raw).unwrap();
    assert_eq!(mb.vendor, "Gigabyte");
    assert_eq!(mb.name, "B650 AORUS ÉLITE");
    assert_eq!(mb.version, "");
    assert_eq!(mb.serial_number, "SN-1");
}

#[test]
fn disk_converts_volumes_in_order() {
    let raw = RawDisk {
        id: 2,
        vendor: text("Samsung"),
        model: text("990 PRO"),
        serial_number: text("S6Z"),
        size_bytes: 2000398934016,
        free_size_bytes: 1000000000000,
        volumes: texts(&["/", "/home"]),
    };
    let disk = Disk::from_raw(&raw).unwrap();
    assert_eq!(disk.id, 2);
    assert_eq!(disk.vendor, "Samsung");
    assert_eq!(disk.model, "990 PRO");
    assert_eq!(disk.serial_number, "S6Z");
    assert_eq!(disk.size_bytes, 2000398934016);
    assert_eq!(disk.free_size_bytes, 1000000000000);
    assert_eq!(disk.volumes, vec!["/", "/home"]);
}

#[test]
fn disk_volumes_with_non_positive_count_are_empty() {
    let mut raw = RawDisk {
        id: 0,
        vendor: None,
        model: None,
        serial_number: None,
        size_bytes: 0,
        free_size_bytes: 0,
        volumes: ForeignArray { is_null: false, count: 0, items: Vec::new() },
    };
    assert!(Disk::from_raw(&raw).unwrap().volumes.is_empty());
    raw.volumes.count = -3;
    assert!(Disk::from_raw(&raw).unwrap().volumes.is_empty());
}

#[test]
fn battery_converts() {
    let raw = RawBattery {
        id: 0,
        vendor: text("SMP"),
        model: text("bq40z651"),
        serial_number: None,
        technology: text("Li-ion"),
        energy_full_mwh: 57000,
        energy_now_mwh: 41000,
        is_charging: true,
    };
    let bat = Battery::from_raw(&raw).unwrap();
    assert_eq!(bat.id, 0);
    assert_eq!(bat.vendor, "SMP");
    assert_eq!(bat.model, "bq40z651");
    assert_eq!(bat.serial_number, "");
    assert_eq!(bat.technology, "Li-ion");
    assert_eq!(bat.energy_full_mwh, 57000);
    assert_eq!(bat.energy_now_mwh, 41000);
    assert!(bat.is_charging);
}

#[test]
fn network_converts() {
    let raw = RawNetwork {
        interface_index: text("3"),
        description: text("eth0"),
        mac_address: text("00:1a:2b:3c:4d:5e"),
        ipv4_address: text("192.168.1.10"),
        ipv6_address: None,
    };
    let net = Network::from_raw(&raw).unwrap();
    assert_eq!(net.interface_index, "3");
    assert_eq!(net.description, "eth0");
    assert_eq!(net.mac_address, "00:1a:2b:3c:4d:5e");
    assert_eq!(net.ipv4_address, "192.168.1.10");
    assert_eq!(net.ipv6_address, "");
}

#[test]
fn memory_scenario_two_corsair_modules() {
    let raw = RawMemoryInfo {
        total_bytes: 17179869184,
        free_bytes: 8589934592,
        available_bytes: 10737418240,
        modules: ForeignArray { is_null: false, count: 2, items: vec![module(0), module(1)] },
    };
    let mem = MemoryInfo::from_raw(&raw).unwrap();
    assert_eq!(mem.total_bytes, 17179869184);
    assert_eq!(mem.free_bytes, 8589934592);
    assert_eq!(mem.available_bytes, 10737418240);
    assert_eq!(mem.modules.len(), 2);
    for (i, m) in mem.modules.iter().enumerate() {
        assert_eq!(m.id, i as i32);
        assert_eq!(m.vendor, "Corsair");
        assert_eq!(m.name, "");
        assert_eq!(m.model, "CMK16GX4M2B3200C16");
        assert_eq!(m.serial_number, "");
        assert_eq!(m.total_bytes, 8589934592);
        assert_eq!(m.frequency_hz, 3200000000);
    }
}

#[test]
fn memory_with_null_modules_has_none() {
    let raw = RawMemoryInfo {
        total_bytes: 1,
        free_bytes: 2,
        available_bytes: 3,
        modules: ForeignArray { is_null: true, count: 4, items: Vec::new() },
    };
    let mem = MemoryInfo::from_raw(&raw).unwrap();
    assert!(mem.modules.is_empty());
}

#[test]
fn memory_with_bad_module_fails() {
    let mut bad = module(1);
    bad.vendor = Some(vec![0xf8, 0x88, 0x80, 0x80]);
    let raw = RawMemoryInfo {
        total_bytes: 1,
        free_bytes: 2,
        available_bytes: 3,
        modules: ForeignArray { is_null: false, count: 2, items: vec![module(0), bad] },
    };
    assert!(matches!(MemoryInfo::from_raw(&raw), Err(HwinfoError::InvalidString(_))));
}

#[test]
fn decode_all_keeps_order() {
    let raws = vec![module(7), module(3), module(5)];
    let mods: Vec<RamModule> = decode_all(&raws).unwrap();
    let ids: Vec<i32> = mods.iter().map(|m| m.id).collect();
    assert_eq!(ids, vec![7, 3, 5]);
}

#[test]
fn decode_all_of_nothing_is_empty() {
    let raws: Vec<RawCpu> = Vec::new();
    let cpus: Vec<Cpu> = decode_all(&raws).unwrap();
    assert!(cpus.is_empty());
}

#[test]
fn decode_array_ignores_untrusted_pair() {
    let arr = ForeignArray { is_null: false, count: -1, items: Vec::<RawRamModule>::new() };
    let mods: Vec<RamModule> = decode_array(&arr).unwrap();
    assert!(mods.is_empty());
}
