//! Settings of one relayed channel.

use std::path::Path;
use twilight_model::id::marker::ChannelMarker;
use twilight_model::id::Id;
use vstd::prelude::*;

verus! {

/// Number of history entries above which the window is trimmed, when the
/// settings name none.
pub fn default_max_history_size() -> (size: u32)
    ensures
        size == 40,
{
    40
}

/// Number of history entries that trimming keeps, when the settings name none.
pub fn default_min_history_size() -> (size: u32)
    ensures
        size == 30,
{
    30
}

/// Largest width or height, in pixels, that an image may have before it is
/// scaled down, when the settings name none.
pub fn default_max_image_size() -> (size: u32)
    ensures
        size == 800,
{
    800
}

/// The mathematical value of a [`Configuration`].
pub struct ConfigurationView {
    pub channel_id: Id<ChannelMarker>,
    pub llm_api_key: Seq<char>,
    pub llm_api_base: Option<Seq<char>>,
    pub model_name: Seq<char>,
    pub max_history_size: u32,
    pub min_history_size: u32,
    pub image_support: bool,
    pub max_image_size: u32,
    pub prompt_path: Box<Path>,
}

/// Settings of one relayed channel.
#[derive(Debug)]
pub struct Configuration {
    channel_id: Id<ChannelMarker>,
    llm_api_key: String,
    llm_api_base: Option<String>,
    model_name: String,
    max_history_size: u32,
    min_history_size: u32,
    image_support: bool,
    max_image_size: u32,
    prompt_path: Box<Path>,
}

impl View for Configuration {
    type V = ConfigurationView;

    closed spec fn view(&self) -> ConfigurationView {
        ConfigurationView {
            channel_id: self.channel_id,
            llm_api_key: self.llm_api_key@,
            llm_api_base: match self.llm_api_base {
                Some(base) => Some(base@),
                None => None,
            },
            model_name: self.model_name@,
            max_history_size: self.max_history_size,
            min_history_size: self.min_history_size,
            image_support: self.image_support,
            max_image_size: self.max_image_size,
            prompt_path: self.prompt_path,
        }
    }
}

impl Configuration {
    /// Settings with the given values.
    pub fn new(
        channel_id: Id<ChannelMarker>,
        llm_api_key: String,
        llm_api_base: Option<String>,
        model_name: String,
        max_history_size: u32,
        min_history_size: u32,
        image_support: bool,
        max_image_size: u32,
        prompt_path: Box<Path>,
    ) -> (config: Self)
        ensures
            config@ == (ConfigurationView {
                channel_id,
                llm_api_key: llm_api_key@,
                llm_api_base: match llm_api_base {
                    Some(base) => Some(base@),
                    None => None,
                },
                model_name: model_name@,
                max_history_size,
                min_history_size,
                image_support,
                max_image_size,
                prompt_path,
            }),
    {
        Configuration {
            channel_id,
            llm_api_key,
            llm_api_base,
            model_name,
            max_history_size,
            min_history_size,
            image_support,
            max_image_size,
            prompt_path,
        }
    }

    /// The file that holds the prompt of the channel.
    pub fn get_prompt_path(&self) -> (path: &Path)
        ensures
            path == &*self@.prompt_path,
    {
        &self.prompt_path
    }

    /// The key that authorises requests to the model.
    pub fn llm_api_key(&self) -> (key: &str)
        ensures
            key@ == self@.llm_api_key,
    {
        self.llm_api_key.as_str()
    }

    /// The address of the model's endpoint, where it is not the usual one.
    pub fn llm_api_base(&self) -> (base: Option<&str>)
        ensures
            match base {
                Some(text) => self@.llm_api_base == Some(text@),
                None => self@.llm_api_base is None,
            },
    {
        match &self.llm_api_base {
            Some(base) => Some(base.as_str()),
            None => None,
        }
    }

    /// Whether the model is shown the images that participants send.
    pub fn image_support(&self) -> (enabled: bool)
        ensures
            enabled == self@.image_support,
    {
        self.image_support
    }

    /// The largest width or height, in pixels, that an image may have before
    /// it is scaled down.
    pub fn max_image_size(&self) -> (size: u32)
        ensures
            size == self@.max_image_size,
    {
        self.max_image_size
    }

    /// How many messages may wait between the channel and the relay loop:
    /// half of `max_history_size`, rounded down.
    pub fn queue_capacity(&self) -> (capacity: usize)
        ensures
            capacity == self@.max_history_size / 2,
    {
        (self.max_history_size / 2) as usize
    }

    /// The name of the model, as it is passed to every request.
    pub fn model_name(&self) -> (name: &str)
        ensures
            name@ == self@.model_name,
    {
        self.model_name.as_str()
    }

    /// The history length above which a batch triggers trimming; also the
    /// largest batch.
    pub fn max_history_size(&self) -> (size: u32)
        ensures
            size == self@.max_history_size,
    {
        self.max_history_size
    }

    /// The history length that trimming leaves.
    pub fn min_history_size(&self) -> (size: u32)
        ensures
            size == self@.min_history_size,
    {
        self.min_history_size
    }

    /// The channel that is relayed.
    pub fn get_channel_id(&self) -> (id: &Id<ChannelMarker>)
        ensures
            *id == self@.channel_id,
    {
        &self.channel_id
    }
}

} // verus!
