use std::path::Path;

use ai_channel::config::{
    default_max_history_size, default_max_image_size, default_min_history_size, Configuration,
};
use ai_channel::ingest::ingest;
use ai_channel::message::RoleTaggedMessage;
use ai_channel::notice::ErrorAnnouncer;
use twilight_model::id::Id;

fn settings_with_sizes(max_history_size: u32, min_history_size: u32) -> Configuration {
    Configuration::new(
        Id::new(42),
        "key".to_string(),
        Some("http://localhost:8080/v1".to_string()),
        "some-model".to_string(),
        max_history_size,
        min_history_size,
        true,
        640,
        Box::from(Path::new("prompts/channel.txt")),
    )
}

#[test]
fn defaults_are_as_documented() {
    assert_eq!(default_max_history_size(), 40);
    assert_eq!(default_min_history_size(), 30);
    assert_eq!(default_max_image_size(), 800);
}

#[test]
fn settings_hand_back_what_they_were_made_of() {
    let settings = settings_with_sizes(40, 30);
    assert_eq!(*settings.get_channel_id(), Id::new(42));
    assert_eq!(settings.get_prompt_path(), Path::new("prompts/channel.txt"));
    assert_eq!(settings.llm_api_key(), "key");
    assert_eq!(settings.llm_api_base(), Some("http://localhost:8080/v1"));
    assert_eq!(settings.model_name(), "some-model");
    assert_eq!(settings.max_history_size(), 40);
    assert_eq!(settings.min_history_size(), 30);
    assert!(settings.image_support());
    assert_eq!(settings.max_image_size(), 640);
}

#[test]
fn endpoint_may_be_left_out() {
    let settings = Configuration::new(
        Id::new(1),
        String::new(),
        None,
        String::new(),
        0,
        0,
        false,
        0,
        Box::from(Path::new("")),
    );
    assert_eq!(settings.llm_api_base(), None);
    assert!(!settings.image_support());
}

#[test]
fn queue_holds_half_of_the_history_limit() {
    assert_eq!(settings_with_sizes(40, 30).queue_capacity(), 20);
    assert_eq!(settings_with_sizes(41, 30).queue_capacity(), 20);
    assert_eq!(settings_with_sizes(4, 2).queue_capacity(), 2);
    assert_eq!(settings_with_sizes(1, 0).queue_capacity(), 0);
    assert_eq!(settings_with_sizes(0, 0).queue_capacity(), 0);
    assert_eq!(settings_with_sizes(u32::MAX, 0).queue_capacity(), 2147483647);
}

#[test]
fn plain_message_of_the_channel_is_queued_as_user_entry() {
    let settings = settings_with_sizes(40, 30);
    let queued = ingest(&settings, &Id::new(42), true, "hello".to_string());
    assert_eq!(queued, Some(RoleTaggedMessage::user("hello".to_string())));
}

#[test]
fn message_of_another_channel_is_discarded() {
    let settings = settings_with_sizes(40, 30);
    assert_eq!(ingest(&settings, &Id::new(43), true, "hello".to_string()), None);
}

#[test]
fn message_that_is_not_plain_is_discarded() {
    let settings = settings_with_sizes(40, 30);
    assert_eq!(ingest(&settings, &Id::new(42), false, "hello".to_string()), None);
    assert_eq!(ingest(&settings, &Id::new(43), false, "hello".to_string()), None);
}

#[test]
fn announcer_tracks_one_notice_and_hands_out_what_it_replaces() {
    let mut announcer = ErrorAnnouncer::new();
    assert_eq!(announcer.live(), None);
    assert_eq!(announcer.retire(), None);
    assert_eq!(announcer.track(Some(Id::new(1))), None);
    assert_eq!(announcer.live(), Some(Id::new(1)));
    assert_eq!(announcer.track(Some(Id::new(2))), Some(Id::new(1)));
    assert_eq!(announcer.live(), Some(Id::new(2)));
    assert_eq!(announcer.retire(), Some(Id::new(2)));
    assert_eq!(announcer.live(), None);
    assert_eq!(announcer.track(None), None);
    assert_eq!(announcer.live(), None);
}
