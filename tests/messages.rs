use blazer_auth::message::{CircleMessage, FileMessage, ImageMessage, MediaType, Message, TextStyle, VideoMessage, VoiceMessage};

#[test]
fn new_message_defaults() {
    let m = Message::new(1, 2, Some("hi".to_string()), None);
    assert_eq!(m.from, 1);
    assert_eq!(m.to, 2);
    assert_eq!(m.text.as_deref(), Some("hi"));
    assert!(m.media.is_none());
    assert!(m.is_encrypted);
    assert!(!m.is_secret);
    assert_eq!(m.delete_after, None);
    assert!(m.styles.is_none());
    let n = Message::new(1, 2, None, None);
    assert_ne!(m.id, n.id);
}

#[test]
fn message_setters() {
    let mut m = Message::new(1, 2, None, None);
    m.add_styles(vec![TextStyle::Bold, TextStyle::Code]);
    m.set_secret(true);
    m.set_delete_after(30);
    assert_eq!(m.styles, Some(vec![TextStyle::Bold, TextStyle::Code]));
    assert!(m.is_secret);
    assert_eq!(m.delete_after, Some(30));
}

#[test]
fn media_messages() {
    let i = ImageMessage::new(1, 2, vec![1, 2], Some("cap".to_string()));
    assert!(matches!(i.base.media, Some(MediaType::Image(ref d)) if d == &vec![1, 2]));
    assert_eq!(i.caption.as_deref(), Some("cap"));
    let v = VideoMessage::new(1, 2, vec![3], None);
    assert!(matches!(v.base.media, Some(MediaType::Video(_))));
    let a = VoiceMessage::new(1, 2, vec![4], 12);
    assert_eq!(a.duration, 12);
    assert!(matches!(a.base.media, Some(MediaType::Voice(_))));
    let f = FileMessage::new(1, 2, vec![5], "f.txt".to_string());
    assert_eq!(f.filename, "f.txt");
    assert!(matches!(f.base.media, Some(MediaType::File(_))));
    let c = CircleMessage::new(3, 4, ":)".to_string());
    assert_eq!(c.emoji, ":)");
    assert_eq!(c.base.from, 3);
    assert!(matches!(c.base.media, Some(MediaType::Circle)));
}
