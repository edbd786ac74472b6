use vstd::prelude::*;

use crate::clock::{new_message_id, now_timestamp};

verus! {

/// A chat message envelope. Identifiers are UUIDs held as their 128-bit
/// value; the timestamp is in seconds since the Unix epoch.
pub struct Message {
    pub id: u128,
    pub from: u128,
    pub to: u128,
    pub timestamp: i64,
    pub text: Option<String>,
    pub media: Option<MediaType>,
    pub is_encrypted: bool,
    pub is_secret: bool,
    pub delete_after: Option<u64>,
    pub styles: Option<Vec<TextStyle>>,
}

/// The media a chat message can carry.
#[derive(Debug, Clone)]
pub enum MediaType {
    Image(Vec<u8>),
    Video(Vec<u8>),
    Voice(Vec<u8>),
    File(Vec<u8>),
    Circle,
}

/// Formatting a chat message's text can have.
#[derive(Debug, Clone, Copy, PartialEq, Eq, Structural)]
pub enum TextStyle {
    Bold,
    Italic,
    Code,
    Quote,
    Link,
}

/// `m` is a fresh message from `from` to `to` with the given text and media:
/// encrypted, not secret, with no self-destruct time and no styles.
pub open spec fn fresh_message(m: Message, from: u128, to: u128, text: Option<String>, media: Option<MediaType>) -> bool {
    &&& m.from == from
    &&& m.to == to
    &&& m.text == text
    &&& m.media == media
    &&& m.is_encrypted
    &&& !m.is_secret
    &&& m.delete_after is None
    &&& m.styles is None
}

impl Message {
    /// A new message with a fresh time-ordered identifier, stamped now.
    pub fn new(from: u128, to: u128, text: Option<String>, media: Option<MediaType>) -> (r: Message)
        ensures
            fresh_message(r, from, to, text, media),
    {
        Message {
            id: new_message_id(),
            from,
            to,
            timestamp: now_timestamp(),
            text,
            media,
            is_encrypted: true,
            is_secret: false,
            delete_after: None,
            styles: None,
        }
    }

    /// Sets the text styles.
    pub fn add_styles(&mut self, styles: Vec<TextStyle>)
        ensures
            *final(self) == (Message { styles: Some(styles), ..*old(self) }),
    {
        self.styles = Some(styles);
    }

    /// Turns secret-chat mode on or off.
    pub fn set_secret(&mut self, is_secret: bool)
        ensures
            *final(self) == (Message { is_secret, ..*old(self) }),
    {
        self.is_secret = is_secret;
    }

    /// Sets the self-destruct time, in seconds.
    pub fn set_delete_after(&mut self, time: u64)
        ensures
            *final(self) == (Message { delete_after: Some(time), ..*old(self) }),
    {
        self.delete_after = Some(time);
    }
}

/// An image with an optional caption.
pub struct ImageMessage {
    pub base: Message,
    pub caption: Option<String>,
}

impl ImageMessage {
    pub fn new(sender_id: u128, receiver_id: u128, image_data: Vec<u8>, caption: Option<String>) -> (r: ImageMessage)
        ensures
            fresh_message(r.base, sender_id, receiver_id, None, Some(MediaType::Image(image_data))),
            r.caption == caption,
    {
        ImageMessage { base: Message::new(sender_id, receiver_id, None, Some(MediaType::Image(image_data))), caption }
    }
}

/// A video with an optional caption.
pub struct VideoMessage {
    pub base: Message,
    pub caption: Option<String>,
}

impl VideoMessage {
    pub fn new(sender_id: u128, receiver_id: u128, video_data: Vec<u8>, caption: Option<String>) -> (r: VideoMessage)
        ensures
            fresh_message(r.base, sender_id, receiver_id, None, Some(MediaType::Video(video_data))),
            r.caption == caption,
    {
        VideoMessage { base: Message::new(sender_id, receiver_id, None, Some(MediaType::Video(video_data))), caption }
    }
}

/// A voice recording and its length in seconds.
pub struct VoiceMessage {
    pub base: Message,
    pub duration: u64,
}

impl VoiceMessage {
    pub fn new(sender_id: u128, receiver_id: u128, voice_data: Vec<u8>, duration: u64) -> (r: VoiceMessage)
        ensures
            fresh_message(r.base, sender_id, receiver_id, None, Some(MediaType::Voice(voice_data))),
            r.duration == duration,
    {
        VoiceMessage { base: Message::new(sender_id, receiver_id, None, Some(MediaType::Voice(voice_data))), duration }
    }
}

/// A file and its name.
pub struct FileMessage {
    pub base: Message,
    pub filename: String,
}

impl FileMessage {
    pub fn new(sender_id: u128, receiver_id: u128, file_data: Vec<u8>, filename: String) -> (r: FileMessage)
        ensures
            fresh_message(r.base, sender_id, receiver_id, None, Some(MediaType::File(file_data))),
            r.filename == filename,
    {
        FileMessage { base: Message::new(sender_id, receiver_id, None, Some(MediaType::File(file_data))), filename }
    }
}

/// An emoji shown in a circle.
pub struct CircleMessage {
    pub base: Message,
    pub emoji: String,
}

impl CircleMessage {
    pub fn new(sender_id: u128, receiver_id: u128, emoji: String) -> (r: CircleMessage)
        ensures
            fresh_message(r.base, sender_id, receiver_id, None, Some(MediaType::Circle)),
            r.emoji == emoji,
    {
        CircleMessage { base: Message::new(sender_id, receiver_id, None, Some(MediaType::Circle)), emoji }
    }
}

} // verus!
