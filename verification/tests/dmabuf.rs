use moonshine::video::dmabuf::{
    combined_memory_types, import_plan, CachedImport, DmaBufImporter, DmaBufPlane, ImportFailure,
    ImportParams, PlaneLayout, Probe, CACHE_TTL,
};

/// Number of the pixel format `A2B10G10R10_UNORM_PACK32`.
const PQ: i32 = 64;

/// Number of the pixel format `R16G16B16A16_SFLOAT`.
const SC_RGB: i32 = 97;

fn plane(offset: u32, stride: u32) -> DmaBufPlane {
    DmaBufPlane { fd: 42, offset, stride, modifier: 0xdead }
}

fn import(key: i32, image: u64, last_used: u128) -> CachedImport {
    CachedImport {
        key,
        image,
        memory: image + 100,
        params: ImportParams::new(1920, 1080, PQ, &[plane(0, 7680)]),
        fd: key + 1000,
        last_used,
    }
}

#[test]
fn import_params_match_for_identical_buffer() {
    let a = ImportParams::new(1920, 1080, PQ, &[plane(0, 7680)]);
    let b = ImportParams::new(1920, 1080, PQ, &[plane(0, 7680)]);
    assert_eq!(a, b);
}

#[test]
fn import_params_detect_recycled_fd_after_format_switch() {
    let pq = ImportParams::new(1920, 1080, PQ, &[plane(0, 7680)]);
    let scrgb = ImportParams::new(1920, 1080, SC_RGB, &[plane(0, 15360)]);
    assert_ne!(pq, scrgb);
}

#[test]
fn import_params_detect_stride_only_change() {
    let a = ImportParams::new(1920, 1080, SC_RGB, &[plane(0, 15360)]);
    let b = ImportParams::new(1920, 1080, SC_RGB, &[plane(0, 16384)]);
    assert_ne!(a, b);
}

#[test]
fn import_params_hold_at_most_four_planes() {
    let planes: Vec<DmaBufPlane> = (0..6).map(|i| plane(i, 10 * i)).collect();
    let params = ImportParams::new(8, 4, PQ, &planes);
    assert_eq!(params.plane_count, 4);
    assert_eq!(params.modifier, 0xdead);
    assert_eq!(params.plane_3, PlaneLayout { offset: 3, stride: 30 });
    let none = ImportParams::new(8, 4, PQ, &[]);
    assert_eq!((none.plane_count, none.modifier), (0, 0));
    assert_eq!(none.plane_0, PlaneLayout { offset: 0, stride: 0 });
}

#[test]
fn an_import_is_reused_while_parameters_and_buffer_match() {
    let now = CACHE_TTL;
    let mut importer = DmaBufImporter::new();
    let params = import(42, 1, now).params;
    assert!(importer.begin(now).is_empty());
    assert_eq!(importer.probe(42, &params), Probe::Import);
    assert_eq!(importer.reuse(42, &params, true, now), None);
    importer.insert(import(42, 1, now));

    assert_eq!(importer.probe(42, &params), Probe::Compare { fd: 1042 });
    assert_eq!(importer.probe(43, &params), Probe::Import);
    let other = ImportParams::new(1920, 1080, SC_RGB, &[plane(0, 15360)]);
    assert_eq!(importer.probe(42, &other), Probe::Import);
    assert_eq!(importer.reuse(42, &params, true, now + 5), Some(1));
    assert_eq!(importer.cache[0].last_used, now + 5);
    assert!(importer.retired.is_empty());

    assert_eq!(importer.reuse(42, &other, true, now + 6), None);
    assert!(importer.cache.is_empty());
    assert_eq!(importer.retired, vec![import(42, 1, now + 6)]);
}

#[test]
fn a_recycled_descriptor_retires_the_old_import() {
    let now = CACHE_TTL;
    let mut importer = DmaBufImporter::new();
    importer.insert(import(42, 1, now));
    importer.insert(import(43, 2, now));
    let params = import(42, 1, now).params;
    assert_eq!(importer.reuse(42, &params, false, now + 7), None);
    assert_eq!(importer.retired, vec![import(42, 1, now + 7)]);
    importer.insert(import(42, 3, now + 7));
    assert_eq!(importer.cache, vec![import(43, 2, now), import(42, 3, now + 7)]);
}

#[test]
fn sweeps_evict_what_was_not_used_for_long() {
    let start = CACHE_TTL;
    let mut importer = DmaBufImporter::new();
    importer.insert(import(42, 1, start));
    importer.insert(import(43, 2, start + 10));
    importer.insert(import(44, 3, start));
    assert_eq!(importer.reuse(44, &import(44, 3, start).params, false, start), None);
    let now = start + CACHE_TTL + 5;
    for _ in 0..59 {
        assert!(importer.begin(now).is_empty());
    }
    assert_eq!(importer.begin(now), vec![import(42, 1, start), import(44, 3, start)]);
    assert_eq!(importer.cache, vec![import(43, 2, start + 10)]);
    assert!(importer.retired.is_empty());
    assert_eq!(importer.calls_since_sweep, 0);
    assert!(importer.evict_stale(start + 10 + CACHE_TTL).is_empty());
    assert_eq!(importer.evict_stale(start + 11 + CACHE_TTL), vec![import(43, 2, start + 10)]);
}

#[test]
fn a_plan_needs_a_plane() {
    let plan = import_plan(&[plane(0, 7680), plane(4096, 3840)]).unwrap();
    assert_eq!(plan.plane_layouts, vec![(0, 7680), (4096, 3840)]);
    assert_eq!((plan.modifier, plan.fd), (0xdead, 42));
    assert_eq!(import_plan(&[]).unwrap_err(), "At least one DMA-BUF plane is required");
}

#[test]
fn failures_tell_what_is_to_be_undone() {
    let bind = ImportFailure::MemoryBind("x".to_owned());
    assert!(bind.undo().free_memory && bind.undo().destroy_image);
    let memory = ImportFailure::MemoryImport("x".to_owned());
    assert!(!memory.undo().free_memory && memory.undo().destroy_image);
    let none = ImportFailure::NoMemoryType;
    assert!(!none.undo().free_memory && !none.undo().destroy_image);
    assert_eq!(none.message(), "No suitable memory type for DMA-BUF import");
    assert_eq!(
        ImportFailure::CacheDuplicate("EBADF".to_owned()).message(),
        "Failed to duplicate DMA-BUF FD for the import cache: EBADF"
    );
    assert_eq!(ImportFailure::ImageCreation("e".to_owned()).message(), "DMA-BUF image creation: e");
    assert_eq!(
        ImportFailure::FdProperties("e".to_owned()).message(),
        "Failed to get memory FD properties: e"
    );
    assert_eq!(ImportFailure::Duplicate("e".to_owned()).message(), "Failed to duplicate DMA-BUF FD: e");
    assert_eq!(combined_memory_types(0b1100, 0b0110), 0b0100);
}
