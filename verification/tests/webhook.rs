use gateway_client::builder::{
    CreateAllowedMentions, CreateEmbed, EditAttachments, EditWebhookMessage, EmbedField,
    ModelError,
};
use gateway_client::dispatch::{DispatchQueue, DispatchedEvent};
use gateway_client::ids::{AttachmentId, ChannelId};

fn embed_with_description(len: usize) -> CreateEmbed {
    let mut e = CreateEmbed::new();
    e.description = Some("x".repeat(len));
    e
}

#[test]
fn content_within_the_limit_passes() {
    let m = EditWebhookMessage::new().content("a".repeat(2000));
    assert!(m.check_length().is_ok());
}

#[test]
fn content_over_the_limit_reports_the_overflow() {
    let m = EditWebhookMessage::new().content("a".repeat(2005));
    assert_eq!(m.check_length(), Err(ModelError::MessageTooLong(5)));
}

#[test]
fn too_many_embeds_are_rejected() {
    let mut m = EditWebhookMessage::new();
    for _ in 0..11 {
        m = m.add_embed(CreateEmbed::new());
    }
    assert_eq!(m.check_length(), Err(ModelError::EmbedAmount));
}

#[test]
fn ten_small_embeds_pass() {
    let mut m = EditWebhookMessage::new();
    for _ in 0..10 {
        m = m.add_embed(embed_with_description(600));
    }
    assert!(m.check_length().is_ok());
}

#[test]
fn an_oversized_embed_reports_the_overflow() {
    let m = EditWebhookMessage::new().embed(embed_with_description(6001));
    assert_eq!(m.check_length(), Err(ModelError::EmbedTooLong(1)));
}

#[test]
fn embed_length_counts_all_texts_and_fields() {
    let mut e = CreateEmbed::new();
    e.title = Some("t".repeat(1000));
    e.description = Some("d".repeat(2000));
    e.footer_text = Some("f".repeat(1000));
    e.author_name = Some("a".repeat(1000));
    e.fields.push(EmbedField {
        name: "n".repeat(500),
        value: "v".repeat(500),
    });
    assert!(e.check_length().is_ok());
    e.fields.push(EmbedField {
        name: "n".to_string(),
        value: String::new(),
    });
    assert_eq!(e.check_length(), Err(ModelError::EmbedTooLong(1)));
}

#[test]
fn too_many_embed_fields_are_rejected() {
    let mut e = CreateEmbed::new();
    for _ in 0..26 {
        e.fields.push(EmbedField {
            name: "n".to_string(),
            value: "v".to_string(),
        });
    }
    assert_eq!(e.check_length(), Err(ModelError::EmbedFieldAmount));
}

#[test]
fn embeds_overwrite_while_add_embeds_appends() {
    let m = EditWebhookMessage::new()
        .add_embed(embed_with_description(1))
        .add_embeds(vec![embed_with_description(2), embed_with_description(3)]);
    let list = m.embeds.as_ref().expect("embeds were added");
    assert_eq!(list.len(), 3);

    let m = m.embed(embed_with_description(4));
    let list = m.embeds.as_ref().expect("embeds were set");
    assert_eq!(list.len(), 1);
    assert_eq!(list[0].description.as_deref(), Some("xxxx"));

    let m = m.embeds(Vec::new());
    assert_eq!(m.embeds.as_ref().expect("embeds were set").len(), 0);
}

#[test]
fn attachments_accumulate_and_clear() {
    let m = EditWebhookMessage::new()
        .new_attachment(gateway_client::builder::CreateAttachment {
            filename: "a.png".to_string(),
            data: vec![1, 2],
        })
        .keep_existing_attachment(AttachmentId(9));
    let a = m.attachments.as_ref().expect("attachments were edited");
    assert_eq!(a.new_attachments.len(), 1);
    assert_eq!(a.new_attachments[0].filename, "a.png");
    assert_eq!(a.kept, vec![AttachmentId(9)]);

    let m = m.clear_attachments();
    let a = m.attachments.as_ref().expect("attachments were cleared");
    assert!(a.new_attachments.is_empty());
    assert!(a.kept.is_empty());

    let direct = EditWebhookMessage::new().attachments(EditAttachments::new().keep(AttachmentId(4)));
    assert_eq!(
        direct.attachments.as_ref().expect("attachments were set").kept,
        vec![AttachmentId(4)]
    );
}

#[test]
fn thread_and_components_and_mentions_are_recorded() {
    let m = EditWebhookMessage::new()
        .in_thread(ChannelId(42))
        .components(Vec::new())
        .allowed_mentions(CreateAllowedMentions::new());
    assert_eq!(m.thread_id, Some(ChannelId(42)));
    assert!(m.components.as_ref().expect("components were set").is_empty());
    assert!(!m.allowed_mentions.as_ref().expect("mentions were set").everyone);
}

#[test]
fn finalize_applies_the_default_mentions() {
    let mut defaults = CreateAllowedMentions::new();
    defaults.everyone = true;

    let m = EditWebhookMessage::new().content("hi".to_string());
    let ready = m.finalize(Some(defaults)).expect("a small message passes");
    assert!(ready.allowed_mentions.as_ref().expect("defaults were applied").everyone);

    let own = EditWebhookMessage::new().allowed_mentions(CreateAllowedMentions::new());
    let mut defaults = CreateAllowedMentions::new();
    defaults.everyone = true;
    let ready = own.finalize(Some(defaults)).expect("passes");
    assert!(!ready.allowed_mentions.as_ref().expect("own mentions kept").everyone);

    let long = EditWebhookMessage::new().content("a".repeat(3000));
    assert_eq!(long.finalize(None).unwrap_err(), ModelError::MessageTooLong(1000));
}

#[test]
fn default_edit_changes_nothing() {
    let m = EditWebhookMessage::default();
    assert!(m.content.is_none());
    assert!(m.embeds.is_none());
    assert!(m.allowed_mentions.is_none());
    assert!(m.components.is_none());
    assert!(m.attachments.is_none());
    assert!(m.thread_id.is_none());
    assert!(m.check_length().is_ok());
}

#[test]
fn dispatch_queue_preserves_submission_order() {
    let mut q = DispatchQueue::new();
    assert_eq!(q.len(), 0);
    assert!(q.take_next().is_none());
    for i in 0..5u64 {
        q.submit(DispatchedEvent {
            sequence: i,
            event_name: format!("EVENT_{i}"),
            payload: vec![i as u8],
        });
    }
    assert_eq!(q.len(), 5);
    for i in 0..5u64 {
        let ev = q.take_next().expect("queue is non-empty");
        assert_eq!(ev.sequence, i);
        assert_eq!(ev.event_name, format!("EVENT_{i}"));
    }
    assert!(q.take_next().is_none());
}
