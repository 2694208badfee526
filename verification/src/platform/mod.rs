mod media_foundation;

pub use media_foundation::{
    acquire_failure, admissible, answered, capture_devices_items, catalog_after_naming,
    catalog_name, claims_after_acquire, decoded_name, enumeration, fresh_devices,
    has_device, held, history_after_acquire, kept, lemma_computed_once,
    lemma_enumeration_idempotent, lemma_idle_gap_restarts, lemma_name_idempotent,
    lemma_naming_keeps_devices, lemma_one_session, lemma_started_while_claimed,
    lemma_startups_paired, name_resolution, name_view, named, named_at, never_idle, outcome_view,
    presents, query_due, shutdowns, starts_subsystem, startups, stops_subsystem, utf16_decoding,
    AudioDevice, CaptureDevices, ClaimOp, Context, DeviceView, Devices, Host, Initialization,
};
