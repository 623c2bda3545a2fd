use layer_gateway::layout::{fan_out_path, flat_path, join, layer_file_name};
use layer_gateway::manager::{
    absolute_range, first_read_tier, next_upload_step, open_next, outside_upload_verdict,
    resolve_next, sub_file_window, IoOutcome, LayerManager, Lookup, OpenAction, OpenStage,
    OutsideUploadError, RangeError, Resolution, SubFileWindow, Tier, UploadStep,
};
use layer_gateway::name::{name_to_string, parse_layer_name, string_to_name};
use layer_gateway::promotion::{next_promotion_step, Admission, LocalCheck, PromotionStep, WorkSet};
use layer_gateway::route::{
    not_found_body, plan_request, range_text, uri_to_spec, InvalidReason, Method, Plan,
    ResourceSpec, SpecParseError,
};
use layer_gateway::subfile::{file_enum_to_string, file_name_to_enum, LayerFile};

const ABC: [u32; 5] = [0xabcdef01, 0x23456789, 0x00000000, 0xffffffff, 0x00000001];
const ABC_HEX: &str = "abcdef012345678900000000ffffffff00000001";

fn manager() -> LayerManager {
    LayerManager::new(
        "/srv/primary".to_string(),
        "/srv/local".to_string(),
        "/srv/upload".to_string(),
        "/srv/scratch".to_string(),
    )
}

#[test]
fn name_prints_as_forty_lower_hex_digits() {
    assert_eq!(name_to_string(ABC), ABC_HEX);
    assert_eq!(name_to_string([0; 5]), "0".repeat(40));
}

#[test]
fn name_round_trips_through_text() {
    for n in [ABC, [0; 5], [u32::MAX; 5], [1, 2, 3, 4, 5], [0x10, 0x100, 0x1000, 0x10000, 0x7fffffff]] {
        assert_eq!(parse_layer_name(&name_to_string(n)), Some(n));
        assert_eq!(string_to_name(&name_to_string(n)), n);
    }
}

#[test]
fn name_parse_takes_upper_case_and_refuses_the_rest() {
    assert_eq!(parse_layer_name(&ABC_HEX.to_uppercase()), Some(ABC));
    assert_eq!(parse_layer_name(&ABC_HEX[..39]), None);
    assert_eq!(parse_layer_name(&format!("{ABC_HEX}0")), None);
    assert_eq!(parse_layer_name(&format!("g{}", &ABC_HEX[1..])), None);
    assert_eq!(parse_layer_name(&format!("+{}", &ABC_HEX[1..])), None);
    assert_eq!(parse_layer_name(""), None);
}

#[test]
fn join_puts_one_separator() {
    assert_eq!(join("/a", "b"), "/a/b");
    assert_eq!(join("/a/", "b"), "/a/b");
    assert_eq!(join("", "b"), "b");
}

#[test]
fn fan_out_and_flat_paths() {
    assert_eq!(layer_file_name(ABC), format!("{ABC_HEX}.larch"));
    assert_eq!(fan_out_path("/srv/local", ABC), format!("/srv/local/abc/{ABC_HEX}.larch"));
    assert_eq!(fan_out_path("/srv/local/", ABC), format!("/srv/local/abc/{ABC_HEX}.larch"));
    assert_eq!(flat_path("/srv/scratch", ABC), format!("/srv/scratch/{ABC_HEX}.larch"));
}

#[test]
fn fan_out_parent_is_the_name_prefix() {
    for n in [ABC, [0x12345678, 0, 0, 0, 0], [u32::MAX; 5]] {
        let p = fan_out_path("/srv/primary", n);
        let hex = name_to_string(n);
        let parts: Vec<&str> = p.rsplitn(3, '/').collect();
        assert_eq!(parts[1], &hex[..3]);
        assert_eq!(parts[0], format!("{hex}.larch"));
    }
}

#[test]
fn manager_paths_per_tier() {
    let m = manager();
    assert_eq!(m.primary_layer_file_path(ABC), format!("/srv/primary/abc/{ABC_HEX}.larch"));
    assert_eq!(m.local_layer_file_path(ABC), format!("/srv/local/abc/{ABC_HEX}.larch"));
    assert_eq!(m.scratch_layer_file_path(ABC), format!("/srv/scratch/{ABC_HEX}.larch"));
    assert_eq!(m.layer_file_path(Tier::Local, ABC), m.local_layer_file_path(ABC));
    assert_eq!(m.upload_path(), "/srv/upload");
}

#[test]
fn sub_file_tokens() {
    assert_eq!(file_name_to_enum("parent"), Some(LayerFile::Parent));
    assert_eq!(file_name_to_enum("pos_subjects"), Some(LayerFile::PosSubjects));
    assert_eq!(
        file_name_to_enum("neg_predicate_wavelet_tree_bit_index_sblocks"),
        Some(LayerFile::NegPredicateWaveletTreeBitIndexSBlocks)
    );
    assert_eq!(file_name_to_enum("parents"), None);
    assert_eq!(file_name_to_enum(""), None);
    assert_eq!(file_enum_to_string(LayerFile::NodeDictionaryBlocks), "node_dictionary_blocks");
    assert_eq!(file_enum_to_string(LayerFile::PosSpOAdjacencyListBits), "pos_sp_o_adjacency_list_bits");
}

#[test]
fn sub_file_tokens_round_trip() {
    let all = [
        "node_dictionary_blocks", "value_dictionary_types_present", "node_value_id_map_bits",
        "predicate_id_map_bit_index_sblocks", "neg_objects", "pos_sp_adjacency_list_nums",
        "pos_o_ps_adjacency_list_bit_index_blocks", "pos_predicate_wavelet_tree_bits",
        "neg_sp_o_adjacency_list_bit_index_sblocks", "parent",
    ];
    for t in all {
        let f = file_name_to_enum(t).unwrap();
        assert_eq!(file_enum_to_string(f), t);
    }
}

#[test]
fn uri_routes() {
    assert_eq!(uri_to_spec(&format!("/layer/{ABC_HEX}")), Ok(ResourceSpec::Layer(ABC)));
    assert_eq!(uri_to_spec(&format!("/cache/{ABC_HEX}")), Ok(ResourceSpec::Cache(ABC)));
    assert_eq!(
        uri_to_spec(&format!("/file/{ABC_HEX}/parent")),
        Ok(ResourceSpec::LayerFile(ABC, LayerFile::Parent))
    );
    assert_eq!(
        uri_to_spec(&format!("/range/{ABC_HEX}/pos_objects")),
        Ok(ResourceSpec::LayerFileRange(ABC, LayerFile::PosObjects))
    );
}

#[test]
fn uri_errors() {
    assert_eq!(uri_to_spec(&format!("/file/{ABC_HEX}/bogus")), Err(SpecParseError::UnknownLayerFile));
    assert_eq!(uri_to_spec(&format!("/range/{ABC_HEX}/x_1")), Err(SpecParseError::UnknownLayerFile));
    assert_eq!(uri_to_spec(&format!("/file/{ABC_HEX}/a-b")), Err(SpecParseError::UnknownPath));
    assert_eq!(uri_to_spec(&format!("/file/{ABC_HEX}/")), Err(SpecParseError::UnknownPath));
    assert_eq!(uri_to_spec(&format!("/layer/{}", ABC_HEX.to_uppercase())), Err(SpecParseError::UnknownPath));
    assert_eq!(uri_to_spec(&format!("/layer/{ABC_HEX}/")), Err(SpecParseError::UnknownPath));
    assert_eq!(uri_to_spec(&format!("/layer/{}", &ABC_HEX[1..])), Err(SpecParseError::UnknownPath));
    assert_eq!(uri_to_spec("/"), Err(SpecParseError::UnknownPath));
    assert_eq!(uri_to_spec(""), Err(SpecParseError::UnknownPath));
}

#[test]
fn invalid_method_reason() {
    assert_eq!(InvalidReason::BadMethod.status(), 400);
    assert_eq!(InvalidReason::BadMethod.msg(), "invalid method");
    assert_eq!(
        plan_request(Method::Other, uri_to_spec(&format!("/layer/{ABC_HEX}"))),
        Plan::Refuse { status: 400, body: "invalid method" }
    );
}

#[test]
fn plans_for_get_and_post() {
    let layer = uri_to_spec(&format!("/layer/{ABC_HEX}"));
    let cache = uri_to_spec(&format!("/cache/{ABC_HEX}"));
    let file = uri_to_spec(&format!("/file/{ABC_HEX}/parent"));
    assert_eq!(plan_request(Method::Get, layer), Plan::SendLayer(ABC));
    assert_eq!(plan_request(Method::Post, layer), Plan::Upload(ABC));
    assert_eq!(plan_request(Method::Post, cache), Plan::Promote(ABC));
    assert_eq!(plan_request(Method::Get, cache), Plan::Refuse { status: 500, body: "Unimplemented" });
    assert_eq!(plan_request(Method::Post, file), Plan::Refuse { status: 500, body: "Unimplemented" });
    assert_eq!(plan_request(Method::Get, file), Plan::SendLayerFile(ABC, LayerFile::Parent));
    assert_eq!(
        plan_request(Method::Get, uri_to_spec("/nope")),
        Plan::Refuse { status: 500, body: "Error: UnknownPath" }
    );
    assert_eq!(
        plan_request(Method::Get, uri_to_spec(&format!("/file/{ABC_HEX}/bogus"))),
        Plan::Refuse { status: 404, body: "Error: UnknownLayerFile" }
    );
}

#[test]
fn local_hit_is_served_without_promotion() {
    let t = first_read_tier();
    assert_eq!(t, Tier::Local);
    assert_eq!(resolve_next(t, Lookup::Found), Resolution::Serve { tier: Tier::Local, promote: false });
}

#[test]
fn primary_hit_is_served_and_promoted() {
    let next = resolve_next(Tier::Local, Lookup::Missing);
    assert_eq!(next, Resolution::Consult(Tier::Primary));
    assert_eq!(
        resolve_next(Tier::Primary, Lookup::Found),
        Resolution::Serve { tier: Tier::Primary, promote: true }
    );
    let mut step = PromotionStep::CopyToScratch;
    let mut seen = vec![step];
    while step != PromotionStep::Finished {
        step = next_promotion_step(step, true);
        seen.push(step);
    }
    assert_eq!(
        seen,
        vec![
            PromotionStep::CopyToScratch,
            PromotionStep::CreateLocalDir,
            PromotionStep::RenameIntoLocal,
            PromotionStep::Release { failed: false },
            PromotionStep::Finished,
        ]
    );
}

#[test]
fn failed_promotion_steps_release() {
    for s in [PromotionStep::CopyToScratch, PromotionStep::CreateLocalDir, PromotionStep::RenameIntoLocal] {
        assert_eq!(next_promotion_step(s, false), PromotionStep::Release { failed: true });
    }
    assert_eq!(next_promotion_step(PromotionStep::Release { failed: true }, true), PromotionStep::Finished);
}

#[test]
fn miss_on_every_tier() {
    assert_eq!(resolve_next(Tier::Primary, Lookup::Missing), Resolution::Absent);
    assert_eq!(resolve_next(Tier::Local, Lookup::Failed), Resolution::Fail);
    assert_eq!(not_found_body(&Plan::SendLayer(ABC)), "Layer not found");
    assert_eq!(not_found_body(&Plan::SendLayerFile(ABC, LayerFile::Parent)), "");
}

#[test]
fn stampede_admits_one_promotion() {
    let mut ws = WorkSet::new();
    let other = [1, 2, 3, 4, 5];
    assert_eq!(ws.try_enter(ABC, LocalCheck::Absent), Admission::Admitted);
    for _ in 0..99 {
        assert!(ws.is_in_flight(ABC));
        assert_eq!(ws.try_enter(ABC, LocalCheck::Absent), Admission::InFlight);
    }
    assert_eq!(ws.try_enter(other, LocalCheck::Absent), Admission::Admitted);
    ws.release(ABC);
    assert!(!ws.is_in_flight(ABC));
    assert!(ws.is_in_flight(other));
    assert_eq!(ws.try_enter(ABC, LocalCheck::Present), Admission::AlreadyLocal);
    assert_eq!(ws.try_enter(ABC, LocalCheck::Failed), Admission::AlreadyLocal);
    assert!(!ws.is_in_flight(ABC));
    assert_eq!(ws.try_enter(ABC, LocalCheck::Absent), Admission::Admitted);
    ws.release(other);
    ws.release(other);
    assert!(!ws.is_in_flight(other));
}

#[test]
fn tier_reader_decisions() {
    assert_eq!(open_next(OpenStage::Stat, IoOutcome::Done), OpenAction::Open);
    assert_eq!(open_next(OpenStage::Open, IoOutcome::Done), OpenAction::Found);
    assert_eq!(open_next(OpenStage::Stat, IoOutcome::NotFound), OpenAction::Absent);
    assert_eq!(open_next(OpenStage::Open, IoOutcome::NotFound), OpenAction::Absent);
    assert_eq!(open_next(OpenStage::Stat, IoOutcome::Failed), OpenAction::Fail);
}

#[test]
fn upload_round_trip_steps() {
    let plan = plan_request(Method::Post, uri_to_spec(&format!("/layer/{ABC_HEX}")));
    assert_eq!(plan, Plan::Upload(ABC));
    let mut s = next_upload_step(UploadStep::CreateTemp, true, false);
    assert_eq!(s, UploadStep::WriteBody);
    s = next_upload_step(s, true, true);
    assert_eq!(s, UploadStep::WriteBody);
    s = next_upload_step(s, true, false);
    assert_eq!(s, UploadStep::Flush);
    s = next_upload_step(s, true, false);
    assert_eq!(s, UploadStep::CreatePrimaryDir);
    s = next_upload_step(s, true, false);
    assert_eq!(s, UploadStep::RenameIntoPrimary);
    s = next_upload_step(s, true, false);
    assert_eq!(s, UploadStep::Promote);
    assert_eq!(next_upload_step(UploadStep::WriteBody, false, true), UploadStep::Fail);
    assert_eq!(next_upload_step(UploadStep::RenameIntoPrimary, false, false), UploadStep::Fail);
}

#[test]
fn outside_upload_path_rejection() {
    assert_eq!(
        outside_upload_verdict(Some(b"/etc".as_slice()), b"/srv/upload"),
        Err(OutsideUploadError::NotInUploadDir)
    );
    assert_eq!(
        outside_upload_verdict(Some(b"/srv/upload/sub".as_slice()), b"/srv/upload"),
        Err(OutsideUploadError::NotInUploadDir)
    );
    assert_eq!(
        outside_upload_verdict(Some(b"/srv/uploads".as_slice()), b"/srv/upload"),
        Err(OutsideUploadError::NotInUploadDir)
    );
    assert_eq!(outside_upload_verdict(None, b"/srv/upload"), Err(OutsideUploadError::NoParent));
    assert_eq!(outside_upload_verdict(Some(b"/srv/upload".as_slice()), b"/srv/upload"), Ok(()));
}

#[test]
fn sub_file_ranges() {
    assert_eq!(absolute_range(100, Some((10, 20))), Ok(Some((110, 120))));
    assert_eq!(absolute_range(100, None), Ok(None));
    assert_eq!(absolute_range(usize::MAX, Some((0, 1))), Err(RangeError::Overflow));
    assert_eq!(sub_file_window(10, 20), Ok(SubFileWindow { skip: 10, len: 10 }));
    assert_eq!(sub_file_window(20, 10), Err(RangeError::Inverted));
    assert_eq!(sub_file_window(usize::MAX, usize::MAX), Err(RangeError::Overflow));
    let off = 64;
    let (a, b) = absolute_range(off, Some((10, 20))).unwrap().unwrap();
    let w = sub_file_window(10, 20).unwrap();
    assert_eq!(a as u64, off as u64 + w.skip);
    assert_eq!(b as u64, a as u64 + w.len);
}

#[test]
fn range_body_text() {
    assert_eq!(range_text(110, 120).unwrap(), "110-119");
    assert_eq!(range_text(0, 1).unwrap(), "0-0");
    assert_eq!(range_text(7, 7).unwrap(), "7-6");
    assert_eq!(range_text(0, 0), None);
    assert_eq!(range_text(1234567890, 1234567891).unwrap(), "1234567890-1234567890");
}
