use pilatus_leptos::device::{
    build_device_url, device_for_route, find_device, format_device_id, get_active_device_infos,
    list_source_urls, params_or_fallback, DeviceInfos, DeviceParams, DeviceParamsError,
    DeviceProblem,
};
use pilatus_leptos::log::{console_method, drops_record, is_message_field, ConsoleMethod, LogLevel};
use pilatus_leptos::pages::{
    collection_image_url, collection_list_url, collection_url, confirm_new_collection, greet_url,
    is_active_collection, NewCollectionStep,
};
use pilatus_leptos::pipeline_error::FetchError;
use pilatus_leptos::recipe_stream::{
    on_recipes_load, on_stream_event, params_url, LoadStep, StreamEvent, StreamStep,
    RELOAD_DELAY_MS,
};
use pilatus_leptos::recipes::{
    add_tag, find_recipe, list_recipes, recipe_status_label, remove_tag, tags_are_distinct,
    unknown_recipe_message, HttpMethod, RecipeInfo, RecipeRequest, TagError,
};

const ID: u128 = 0xa1a2a3a4b1b2c1c2d1d2d3d4d5d6d7d8;
const ID_TEXT: &str = "a1a2a3a4-b1b2-c1c2-d1d2-d3d4d5d6d7d8";

fn devices() -> Vec<DeviceInfos> {
    vec![
        DeviceInfos { device_id: 1, name: "cam".into(), device_type: "emulation-camera".into() },
        DeviceInfos { device_id: ID, name: "tick".into(), device_type: "manual-tick".into() },
    ]
}

// ------------------------------------------------------------ device ids

#[test]
fn device_ids_are_written_hyphenated_lower_case() {
    assert_eq!(format_device_id(ID), ID_TEXT);
    assert_eq!(format_device_id(0), "00000000-0000-0000-0000-000000000000");
    assert_eq!(format_device_id(u128::MAX), "ffffffff-ffff-ffff-ffff-ffffffffffff");
}

#[test]
fn device_params_from_route() {
    assert!(matches!(DeviceParams::from_map(Some(ID_TEXT)), Ok(p) if p.device_id == ID));
    assert!(matches!(
        DeviceParams::from_map(Some("A1A2A3A4B1B2C1C2D1D2D3D4D5D6D7D8")),
        Ok(p) if p.device_id == ID
    ));
    assert!(matches!(
        DeviceParams::from_map(None),
        Err(DeviceParamsError::MissingParam(n)) if n == "device_id"
    ));
    assert!(matches!(DeviceParams::from_map(Some("nope")), Err(DeviceParamsError::Params(_))));
    assert!(matches!(DeviceParams::from_parsed(Some(Ok(7))), Ok(p) if p.device_id == 7));
}

#[test]
fn device_lookup_finds_the_device_of_the_route() {
    let list = devices();
    assert_eq!(find_device(&list, ID).unwrap().name, "tick");
    assert!(find_device(&list, 2).is_none());
    assert!(get_active_device_infos(&list, None).is_none());
    assert_eq!(get_active_device_infos(&list, Some(1)).unwrap().name, "cam");
    assert_eq!(device_for_route(Some(ID_TEXT), &list).unwrap().device_type, "manual-tick");
}

#[test]
fn device_page_problems() {
    let list = devices();
    let missing = device_for_route(None, &list).unwrap_err();
    assert!(matches!(missing, DeviceProblem::Missing));
    assert_eq!(missing.message(), "No device ID provided");
    let invalid = device_for_route(Some("xyz"), &list).unwrap_err();
    assert!(matches!(&invalid, DeviceProblem::Invalid(s) if s == "xyz"));
    assert_eq!(invalid.message(), "Invalid device ID: \"xyz\"");
    let quoted = device_for_route(Some("a\"b\\c\n"), &list).unwrap_err();
    assert_eq!(quoted.message(), format!("Invalid device ID: {:?}", "a\"b\\c\n"));
    assert_eq!(quoted.message(), "Invalid device ID: \"a\\\"b\\\\c\\n\"");
    let unknown = device_for_route(Some("00000000-0000-0000-0000-000000000002"), &list).unwrap_err();
    assert!(matches!(unknown, DeviceProblem::NotFound(2)));
    assert_eq!(
        unknown.message(),
        "No device with ID 00000000-0000-0000-0000-000000000002 found in active recipe"
    );
}

#[test]
fn image_source_urls() {
    assert_eq!(
        build_device_url("ws://host:4123", ID),
        format!("ws://host:4123/api/image/subscribe?format=Raw&device_id={ID_TEXT}")
    );
    let urls = list_source_urls("ws://h:4123", &vec![1, ID], None);
    assert_eq!(urls.len(), 2);
    assert!(urls[0].ends_with("00000000-0000-0000-0000-000000000001"));
    let urls = list_source_urls("ws://h:4123", &vec![1, ID], Some(ID_TEXT));
    assert_eq!(urls, vec![
        "ws://h:4123/api/image/subscribe?format=Raw&device_id=00000000-0000-0000-0000-000000000001"
            .to_string()
    ]);
}

#[test]
fn params_fall_back_to_the_valid_recipe() {
    let r: Result<u8, &str> = params_or_fallback(Ok(1), || Ok(2));
    assert_eq!(r, Ok(1));
    let r: Result<u8, &str> = params_or_fallback(Err("edited"), || Ok(2));
    assert_eq!(r, Ok(2));
    let r: Result<u8, &str> = params_or_fallback(Err("edited"), || Err("valid"));
    assert_eq!(r, Err("valid"));
}

// ------------------------------------------------------------ device pages

#[test]
fn emulation_camera_urls() {
    assert_eq!(
        collection_list_url(ID),
        format!("/api/pilatus-emulation-camera/collection?device_id={ID_TEXT}")
    );
    assert_eq!(
        collection_url("set1", ID),
        format!("/api/pilatus-emulation-camera/collection/set1?device_id={ID_TEXT}")
    );
    assert_eq!(
        collection_image_url("set1", "img.v2.png", ID),
        format!("/api/pilatus-emulation-camera/collection/set1/img.v2?device_id={ID_TEXT}")
    );
    assert_eq!(
        collection_image_url("set1", "raw", 0),
        "/api/pilatus-emulation-camera/collection/set1/raw?device_id=00000000-0000-0000-0000-000000000000"
    );
}

#[test]
fn new_collection_needs_valid_name_and_file() {
    assert!(matches!(confirm_new_collection("set 1", true), NewCollectionStep::Upload(n) if n == "set 1"));
    assert!(matches!(confirm_new_collection("set 1", false), NewCollectionStep::Discard));
    assert!(matches!(confirm_new_collection("", true), NewCollectionStep::Discard));
    assert!(matches!(confirm_new_collection("bad/name", true), NewCollectionStep::Discard));
}

#[test]
fn active_collection() {
    assert!(is_active_collection(Some("a"), "a"));
    assert!(!is_active_collection(Some("a"), "b"));
    assert!(!is_active_collection(None, "a"));
}

#[test]
fn greeter_requests() {
    assert!(matches!(greet_url(""), Err(FetchError::Other(m)) if m == "Name mustn't be empty"));
    assert_eq!(greet_url("Bob").unwrap(), "/api/pilatus-greeter/greet/Bob");
}

// ------------------------------------------------------------ recipe stream

#[test]
fn recipe_stream_reactions() {
    assert_eq!(on_stream_event(ID, &StreamEvent::Text(ID_TEXT.into())), StreamStep::OwnChange);
    assert_eq!(on_stream_event(ID, &StreamEvent::Text("someone".into())), StreamStep::Refresh);
    assert_eq!(on_stream_event(ID, &StreamEvent::Bytes), StreamStep::UnexpectedBinary);
    assert_eq!(on_stream_event(ID, &StreamEvent::Error), StreamStep::Reconnect);
    assert_eq!(on_stream_event(ID, &StreamEvent::Ended), StreamStep::Reconnect);
}

#[test]
fn recipes_load_until_success() {
    assert!(matches!(on_recipes_load::<u8>(Ok(3)), LoadStep::Loaded(3)));
    assert!(matches!(
        on_recipes_load::<u8>(Err("offline".into())),
        LoadStep::Retry { error, delay_ms } if error == "offline" && delay_ms == RELOAD_DELAY_MS
    ));
    assert_eq!(RELOAD_DELAY_MS, 1000);
}

#[test]
fn parameter_upload_url() {
    assert_eq!(
        params_url("main", ID, 0),
        format!("/api/recipe/main/device/{ID_TEXT}/params?key=00000000-0000-0000-0000-000000000000")
    );
}

// ------------------------------------------------------------ recipes

#[test]
fn tags_are_added_once() {
    let tags = vec!["a".to_string()];
    assert_eq!(add_tag(&tags, "b").unwrap(), vec!["a".to_string(), "b".to_string()]);
    assert!(matches!(add_tag(&tags, "a"), Err(TagError::Duplicate)));
    assert!(matches!(add_tag(&tags, " b"), Err(TagError::InvalidName)));
    assert!(tags_are_distinct(&vec!["x".into(), "y".into()]));
    assert!(!tags_are_distinct(&vec!["x".into(), "y".into(), "x".into()]));
}

#[test]
fn remove_undoes_add() {
    let tags = vec!["a".to_string(), "c".to_string()];
    let added = add_tag(&tags, "b").unwrap();
    assert_eq!(remove_tag(&added, &"b".to_string()), tags);
    assert_eq!(remove_tag(&tags, &"zzz".to_string()), tags);
}

#[test]
fn recipes_are_listed_with_the_active_one_marked() {
    let infos = list_recipes(vec![("r1".to_string(), 10), ("r2".to_string(), 20)], &"r2".to_string());
    assert_eq!(infos.len(), 2);
    assert!(!infos[0].is_active && infos[1].is_active);
    assert_eq!(infos[1].recipe, 20);
    let found: Option<&RecipeInfo<i32>> = find_recipe(&infos, "r1");
    assert_eq!(found.unwrap().recipe, 10);
    assert!(find_recipe(&infos, "r3").is_none());
    assert_eq!(unknown_recipe_message("r3"), "Recipe r3 doesn't exist");
}

#[test]
fn recipe_requests() {
    assert_eq!(RecipeRequest::Activate("r".into()).url(), "/api/recipe/start/r");
    assert_eq!(RecipeRequest::Duplicate("r".into()).url(), "/api/recipe/r/clone");
    assert_eq!(RecipeRequest::Delete("r".into()).url(), "/api/recipe/r");
    assert_eq!(RecipeRequest::Export("r".into()).url(), "/api/recipe/r/export");
    assert_eq!(RecipeRequest::UpdateMeta("r".into()).url(), "/api/recipe/r/meta");
    assert_eq!(RecipeRequest::Commit.url(), "/api/recipe/commit");
    assert_eq!(RecipeRequest::NewDefault.url(), "/api/recipe/new_default");
    assert_eq!(RecipeRequest::Delete("r".into()).method(), HttpMethod::Delete);
    assert_eq!(RecipeRequest::Export("r".into()).method(), HttpMethod::Get);
    assert_eq!(RecipeRequest::Commit.method(), HttpMethod::Put);
    assert!(!RecipeRequest::Activate("r".into()).offered_for(true));
    assert!(!RecipeRequest::Delete("r".into()).offered_for(true));
    assert!(RecipeRequest::Duplicate("r".into()).offered_for(true));
    assert!(RecipeRequest::Delete("r".into()).offered_for(false));
    assert_eq!(recipe_status_label(true), "\u{25cf} Active");
    assert_eq!(recipe_status_label(false), "\u{25cb} Inactive");
}

// ------------------------------------------------------------ logging

#[test]
fn verbose_graphics_records_are_dropped() {
    assert!(drops_record(LogLevel::Debug, "wgpu_core::device"));
    assert!(drops_record(LogLevel::Trace, "naga::front"));
    assert!(!drops_record(LogLevel::Info, "wgpu_core"));
    assert!(!drops_record(LogLevel::Debug, "my_app"));
    assert!(!drops_record(LogLevel::Error, "naga"));
}

#[test]
fn console_methods_per_level() {
    assert_eq!(console_method(LogLevel::Error), ConsoleMethod::Error);
    assert_eq!(console_method(LogLevel::Warn), ConsoleMethod::Warn);
    assert_eq!(console_method(LogLevel::Info), ConsoleMethod::Info);
    assert_eq!(console_method(LogLevel::Debug), ConsoleMethod::Log);
    assert_eq!(console_method(LogLevel::Trace), ConsoleMethod::Debug);
    assert!(is_message_field("message"));
    assert!(!is_message_field("messages"));
}

#[test]
fn aravis_camera_list_url() {
    assert_eq!(
        pilatus_leptos::pages::aravis_camera_url(ID),
        format!("/api/pilatus-aravis/camera?device_id={ID_TEXT}")
    );
}

#[test]
fn device_link_leads_back_to_the_device() {
    let link = pilatus_leptos::device::device_link(ID, "manual-tick");
    assert_eq!(link, format!("/device/{ID_TEXT}/manual-tick"));
    let segment = link.split('/').nth(2).unwrap();
    let list = devices();
    assert_eq!(device_for_route(Some(segment), &list).unwrap().device_id, ID);
    assert!(matches!(DeviceParams::from_map(Some(segment)), Ok(p) if p.device_id == ID));
}

#[test]
fn removing_a_tag_keeps_tags_distinct() {
    let tags = vec!["a".to_string(), "b".to_string(), "c".to_string()];
    let kept = remove_tag(&tags, &"b".to_string());
    assert!(tags_are_distinct(&kept));
    assert!(!kept.contains(&"b".to_string()));
    assert_eq!(kept, vec!["a".to_string(), "c".to_string()]);
}
