//! Unit tests of the individual components: state buffer, exports
//! resolution, watcher classification, versions, result codes, vector set
//! operations, extensions, and the editor mailbox.

use steadfast::devices::PhysicalDeviceProperties;
use steadfast::devices::PhysicalDeviceType;
use steadfast::devices::QueueFamily;
use steadfast::devices::QueueRequirements;
use steadfast::devices::VkPhysicalDeviceProperties;
use steadfast::devices::VkQueueFamilyProperties;
use steadfast::editor::Editor;
use steadfast::editor::Message;
use steadfast::errors::Error;
use steadfast::exports::assemble_exports;
use steadfast::exports::resolve_exports;
use steadfast::exports::str_eq;
use steadfast::exports::ExportDecl;
use steadfast::extensions::required_extensions;
use steadfast::extensions::HasExtensions;
use steadfast::extensions::InstanceExtensions;
use steadfast::lifecycle::ModuleAPI;
use steadfast::module::parent_dir;
use steadfast::notify_source::resolve_event;
use steadfast::notify_source::NotifyEventSource;
use steadfast::state_buffer::StateBuffer;
use steadfast::vec_ops::Intersect;
use steadfast::vec_ops::Union;
use steadfast::vec_ops::Uniq;
use steadfast::version::u32_to_string;
use steadfast::version::Version;
use steadfast::version::VulkanVersion;
use steadfast::vulkan::check_errors;
use steadfast::vulkan::Success;
use steadfast::vulkan::VulkanError;
use steadfast::watcher::classify_events;
use steadfast::watcher::ChangeEvent;
use steadfast::watcher::FsEvent;
use steadfast::host::Host;

fn d(name: &str) -> ExportDecl {
    ExportDecl { name: name.to_string(), sig: "() -> int".to_string() }
}

// -- state buffer --------------------------------------------------------

#[test]
fn state_buffer_rounds_up_and_zero_fills() {
    let mut b = StateBuffer::new();
    assert_eq!(b.len(), 0);
    b.resize(1);
    assert_eq!(b.len(), 8);
    b.resize(12);
    assert_eq!(b.len(), 16);
    for i in 0..16 {
        assert_eq!(b.read(i), 0, "grown bytes are zero");
    }
    b.resize(0);
    assert_eq!(b.len(), 0);
}

#[test]
fn state_buffer_preserves_bytes_across_grow_and_shrink() {
    let mut b = StateBuffer::new();
    b.resize(16);
    for i in 0..16 {
        b.write(i, (i as u8) * 3 + 1);
    }
    b.resize(64);
    assert_eq!(b.len(), 64);
    for i in 0..16 {
        assert_eq!(b.read(i), (i as u8) * 3 + 1, "grow keeps the old range");
    }
    for i in 16..64 {
        assert_eq!(b.read(i), 0, "grow zero-fills the new range");
    }
    b.resize(16);
    assert_eq!(b.len(), 16);
    for i in 0..16 {
        assert_eq!(b.read(i), (i as u8) * 3 + 1, "round trip keeps every byte");
    }
}

#[test]
fn state_buffer_bytes_mut_exposes_the_block() {
    let mut b = StateBuffer::new();
    b.resize(8);
    b.bytes_mut()[3] = 0x5A;
    assert_eq!(b.read(3), 0x5A);
}

// -- exports -------------------------------------------------------------

#[test]
fn assemble_takes_every_resolved_handle() {
    let decls = vec![d("run"), d("stop")];
    let found = vec![Some(11u64), Some(22u64)];
    let table = assemble_exports(&decls, &found).unwrap();
    assert_eq!(table.len(), 2);
    assert_eq!(table.get("run"), Some(11));
    assert_eq!(table.get("stop"), Some(22));
    assert_eq!(table.get("absent"), None);
    assert_eq!(table.entry(0).name, "run");
    assert_eq!(table.entry(0).sig, "() -> int");
}

#[test]
fn assemble_fails_on_the_first_missing_name() {
    let decls = vec![d("run"), d("stop"), d("tick")];
    let found = vec![Some(11u64), None, None];
    let err = assemble_exports(&decls, &found).unwrap_err();
    assert_eq!(err, Error::MissingExport("stop".to_string()));
}

struct LookupUnit {
    names: Vec<(String, u64)>,
}

impl ModuleAPI for LookupUnit {
    fn size(&self) -> usize {
        0
    }
    fn init(&self, _state: &mut StateBuffer) {}
    fn reload(&self, _state: &mut StateBuffer) {}
    fn update(&self, _host: &Host, _state: &mut StateBuffer) {}
    fn unload(&self, _state: &mut StateBuffer) {}
    fn deinit(&self, _state: &mut StateBuffer) {}
    fn resolve(&self, name: &str) -> Option<u64> {
        self.names.iter().find(|(n, _)| n == name).map(|(_, h)| *h)
    }
}

#[test]
fn resolver_assembles_declared_exports_in_order() {
    let unit = LookupUnit {
        names: vec![("stop".to_string(), 7), ("run".to_string(), 5)],
    };
    let decls = vec![d("run"), d("stop")];
    let table = resolve_exports(&unit, &decls).unwrap();
    assert_eq!(table.entry(0).name, "run");
    assert_eq!(table.entry(0).handle, 5);
    assert_eq!(table.entry(1).name, "stop");
    assert_eq!(table.entry(1).handle, 7);
}

#[test]
fn resolver_reports_a_missing_export_by_name() {
    let unit = LookupUnit { names: vec![("run".to_string(), 5)] };
    let decls = vec![d("run"), d("draw")];
    let err = resolve_exports(&unit, &decls).unwrap_err();
    assert_eq!(err, Error::MissingExport("draw".to_string()));
}

#[test]
fn str_eq_compares_contents() {
    assert!(str_eq("alpha", "alpha"));
    assert!(!str_eq("alpha", "beta"));
    assert!(!str_eq("alpha", "alpha "));
}

// -- watcher -------------------------------------------------------------

#[test]
fn classify_reports_a_touch_of_the_watched_path() {
    let path = "/tmp/alpha.so".to_string();
    let events = vec![
        ChangeEvent::Other,
        ChangeEvent::Touched("/tmp/beta.so".to_string()),
        ChangeEvent::Touched("/tmp/alpha.so".to_string()),
    ];
    assert_eq!(classify_events(&events, &path), Ok(true));
}

#[test]
fn classify_ignores_other_paths_and_kinds() {
    let path = "/tmp/alpha.so".to_string();
    let events = vec![ChangeEvent::Other, ChangeEvent::Touched("/tmp/beta.so".to_string())];
    assert_eq!(classify_events(&events, &path), Ok(false));
    assert_eq!(classify_events(&Vec::new(), &path), Ok(false));
}

#[test]
fn classify_fails_on_an_unresolvable_path() {
    let path = "/tmp/alpha.so".to_string();
    let events = vec![ChangeEvent::Touched("/tmp/alpha.so".to_string()), ChangeEvent::PathError];
    assert_eq!(classify_events(&events, &path), Err(Error::IoFailure));
}

#[test]
fn resolve_event_canonicalizes_write_like_events() {
    assert_eq!(
        resolve_event(FsEvent::Write("/".to_string())),
        ChangeEvent::Touched("/".to_string())
    );
    assert_eq!(
        resolve_event(FsEvent::Create("/surely-missing-steadfast-path".to_string())),
        ChangeEvent::PathError
    );
    assert_eq!(
        resolve_event(FsEvent::Rename("/a".to_string(), "/b".to_string())),
        ChangeEvent::Other
    );
    assert_eq!(resolve_event(FsEvent::Rescan), ChangeEvent::Other);
}

#[test]
fn watch_of_a_missing_directory_is_a_setup_failure() {
    match NotifyEventSource::subscribe("/surely-missing-steadfast-dir", 1) {
        Err(e) => assert_eq!(e, Error::WatchSetupFailure),
        Ok(_) => panic!("watching a missing directory must fail"),
    }
}

#[test]
fn parent_dir_splits_at_the_last_separator() {
    assert_eq!(parent_dir("a/b/c.so"), Some("a/b".to_string()));
    assert_eq!(parent_dir("/alpha.so"), Some("".to_string()));
    assert_eq!(parent_dir("alpha.so"), None);
}

/// A loader that never manages to open anything.
struct NeverLoader;

impl steadfast::lifecycle::Loader for NeverLoader {
    type Unit = LookupUnit;
    fn load(&mut self, _path: &str) -> Result<LookupUnit, Error> {
        Err(Error::MissingEntrySymbol)
    }
}

#[test]
fn module_construction_propagates_a_missing_entry_symbol() {
    // the path exists and can be watched, but it is no loadable unit
    let mut loader = NeverLoader;
    match steadfast::module::Module::from_path("/bin/sh", vec![], &mut loader) {
        Err(e) => assert_eq!(e, Error::MissingEntrySymbol),
        Ok(_) => panic!("loading must fail"),
    }
}

#[test]
fn module_construction_fails_on_an_unresolvable_path() {
    let mut loader = NeverLoader;
    match steadfast::module::Module::from_path(
        "/surely-missing-steadfast-dir/alpha.so",
        vec![],
        &mut loader,
    ) {
        Err(e) => assert_eq!(e, Error::IoFailure),
        Ok(_) => panic!("an unresolvable artifact path must fail"),
    }
}

// -- versions ------------------------------------------------------------

#[test]
fn version_splits_the_packed_form() {
    let v = Version::from_vulkan((1 << 22) | (2 << 12) | 3);
    assert_eq!(v, Version { major: 1, minor: 2, patch: 3 });
    assert_eq!(Version::new(4, 5, 6), Version { major: 4, minor: 5, patch: 6 });
    assert_eq!(Version::from_cargo(), Version { major: 0, minor: 1, patch: 0 });
    assert_eq!(Version::new(1, 2, 0).to_vulkan_u32(), 0);
}

#[test]
fn packed_version_formats_as_dotted_decimal() {
    let v = VulkanVersion::new((1 << 22) | (2 << 12) | 3);
    assert_eq!(v.raw, (1 << 22) | (2 << 12) | 3);
    assert_eq!(v.formatted, "1.2.3");
    assert_eq!(VulkanVersion::new(0).formatted, "0.0.0");
    assert_eq!(VulkanVersion::new((1023 << 12) | 4095).formatted, "0.1023.4095");
}

#[test]
fn decimal_rendering_is_exact() {
    assert_eq!(u32_to_string(0), "0");
    assert_eq!(u32_to_string(7), "7");
    assert_eq!(u32_to_string(1234567890), "1234567890");
    assert_eq!(u32_to_string(u32::MAX), "4294967295");
}

// -- result codes --------------------------------------------------------

#[test]
fn result_codes_classify_success_and_failure() {
    assert_eq!(check_errors(0), Ok(Success::Success));
    assert_eq!(check_errors(1), Ok(Success::NotReady));
    assert_eq!(check_errors(5), Ok(Success::Incomplete));
    assert_eq!(check_errors(1000001003), Ok(Success::Suboptimal));
    assert_eq!(check_errors(-1), Err(VulkanError::OutOfHostMemory));
    assert_eq!(check_errors(-4), Err(VulkanError::DeviceLost));
    assert_eq!(check_errors(-11), Err(VulkanError::FormatNotSupported));
    assert_eq!(check_errors(-1000000001), Err(VulkanError::NativeWindowInUse));
    assert_eq!(check_errors(-1000069000), Err(VulkanError::OutOfPoolMemory));
    assert_eq!(check_errors(-1000255000), Err(VulkanError::FullscreenExclusiveLost));
}

// -- vector set operations -----------------------------------------------

#[test]
fn unique_removes_later_duplicates() {
    let v: Vec<u64> = vec![1, 2, 1, 3, 2, 3, 4, 5, 6];
    assert_eq!(v.unique(), vec![1, 2, 3, 4, 5, 6]);
}

#[test]
fn uniq_removes_values_that_occur_in_the_other_vector() {
    let v: Vec<u64> = vec![1, 2, 3, 4, 5, 6];
    assert_eq!(v.uniq(vec![1, 2, 5, 7, 9]), vec![3, 4, 6]);
}

#[test]
fn is_unique_detects_duplicates() {
    let dup: Vec<u64> = vec![1, 2, 1, 3, 4, 3, 4, 5, 6];
    assert!(!dup.is_unique());
    let distinct: Vec<u64> = vec![1, 2, 3];
    assert!(distinct.is_unique());
}

#[test]
fn intersect_keeps_common_values_once_in_order() {
    let v: Vec<u64> = vec![1, 1, 3, 5];
    assert_eq!(v.intersect(vec![1, 2, 3]), vec![1, 3]);
}

#[test]
fn union_joins_without_duplicates() {
    let v: Vec<u64> = vec![1, 2, 3];
    assert_eq!(v.union(vec![3, 4, 1]), vec![1, 2, 3, 4]);
}

#[test]
fn comparator_variants_follow_the_comparator() {
    let v: Vec<u64> = vec![1, 2, 3, 4, 5, 6];
    let out = v.uniq_via(vec![1, 2, 5, 7, 9], |l: &u64, r: &u64| *l == *r + 2);
    assert_eq!(out, vec![1, 2, 4, 6]);

    let w: Vec<u64> = vec![10, 20, 14, 33, 21, 35, 46, 52, 62];
    let tens = w.unique_via(|l: &u64, r: &u64| *l / 10 == *r / 10);
    assert_eq!(tens, vec![10, 20, 33, 46, 52, 62]);
    assert!(!w.is_unique_via(|l: &u64, r: &u64| *l / 10 == *r / 10));
    assert!(w.is_unique_via(|l: &u64, r: &u64| *l == *r));

    let x: Vec<u64> = vec![1, 1, 3, 5];
    assert_eq!(x.intersect_if(vec![1, 2, 3], |l: &u64, r: &u64| *l == *r), vec![1, 3]);
}

// -- extensions ----------------------------------------------------------

#[test]
fn no_extensions_are_required() {
    let r = required_extensions();
    assert_eq!(r, InstanceExtensions::none());
    assert!(!r.khr_surface);
}

#[test]
fn extension_lookup_goes_by_native_name() {
    let mut e = InstanceExtensions::none();
    e.khr_surface = true;
    e.ext_debug_utils = true;
    assert!(e.has_extension("VK_KHR_surface"));
    assert!(e.has_extension("VK_EXT_debug_utils"));
    assert!(!e.has_extension("VK_KHR_display"));
    assert!(!e.has_extension("VK_KHR_something_else"));
}

#[test]
fn extension_intersection_is_per_flag() {
    let mut a = InstanceExtensions::none();
    a.khr_surface = true;
    a.khr_display = true;
    let mut b = InstanceExtensions::none();
    b.khr_display = true;
    b.ext_debug_utils = true;
    let c = a.intersection(&b);
    assert!(!c.khr_surface);
    assert!(c.khr_display);
    assert!(!c.ext_debug_utils);
}

// -- devices -------------------------------------------------------------

#[test]
fn device_type_decodes_with_a_fallback() {
    assert_eq!(PhysicalDeviceType::from_u32(1), PhysicalDeviceType::IntegratedGpu);
    assert_eq!(PhysicalDeviceType::from_u32(2), PhysicalDeviceType::DiscreteGpu);
    assert_eq!(PhysicalDeviceType::from_u32(3), PhysicalDeviceType::VirtualGpu);
    assert_eq!(PhysicalDeviceType::from_u32(4), PhysicalDeviceType::Cpu);
    assert_eq!(PhysicalDeviceType::from_u32(0), PhysicalDeviceType::Other);
    assert_eq!(PhysicalDeviceType::from_u32(99), PhysicalDeviceType::Other);
}

#[test]
fn device_properties_decode_version_and_type() {
    let raw = VkPhysicalDeviceProperties {
        api_version: (1 << 22) | (3 << 12) | 7,
        device_type: 2,
        device_name: "test gpu".to_string(),
    };
    let p = PhysicalDeviceProperties::new(raw);
    assert_eq!(p.api_version, Version { major: 1, minor: 3, patch: 7 });
    assert_eq!(p.device_type, PhysicalDeviceType::DiscreteGpu);
    assert_eq!(p.device_name, "test gpu");
}

#[test]
fn queue_family_and_requirements_defaults() {
    let props = VkQueueFamilyProperties { queue_flags: 1, queue_count: 4, timestamp_valid_bits: 64 };
    let q = QueueFamily::new(props);
    assert_eq!(q.properties, props);
    let req = QueueRequirements::default();
    assert!(!req.has_graphics);
    assert!(req.can_present.is_none());
}

// -- editor --------------------------------------------------------------

#[test]
fn editor_update_drains_and_honours_exit() {
    let mut e = Editor::new();
    assert!(!e.exit);
    e.update();
    assert!(!e.exit, "no message, no exit");

    e.post(Message::Exit { force: false });
    assert_eq!(e.pending.len(), 1);
    e.update();
    assert!(e.exit);
    assert!(e.pending.is_empty());
}

// -- host ----------------------------------------------------------------

#[test]
fn registry_starts_fully_empty() {
    let h = Host::default();
    assert!(h.libgame.is_none());
    assert!(h.libengine.is_none());
}

// -- errors --------------------------------------------------------------

#[test]
fn every_failure_describes_itself() {
    let all = vec![
        Error::LoadFailure,
        Error::MissingEntrySymbol,
        Error::MissingExport("run".to_string()),
        Error::WatchSetupFailure,
        Error::IoFailure,
    ];
    for e in &all {
        assert!(!e.describe().is_empty());
    }
}
