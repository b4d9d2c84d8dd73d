//! A builder to specify the fields to edit in an existing webhook's
//! message, and the length checks applied before it is sent.

use vstd::prelude::*;
use vstd::string::StrSliceExecFns;

use crate::ids::{AttachmentId, ChannelId, UserId};

verus! {

/// The maximum number of unicode code points in a message's content.
pub const MESSAGE_CODE_LIMIT: usize = 2000;

/// The maximum number of embeds in a message.
pub const EMBED_MAX_COUNT: usize = 10;

/// The maximum total number of unicode code points across an embed's texts.
pub const EMBED_MAX_LENGTH: usize = 6000;

/// The maximum number of fields in an embed.
pub const EMBED_MAX_FIELDS: usize = 25;

/// An error with the shape of the data to be sent.
#[derive(Clone, Copy, Debug, PartialEq, Eq, Structural)]
pub enum ModelError {
    /// The message content was over the limit, by the given number of code
    /// points.
    MessageTooLong(usize),
    /// The message carried more embeds than allowed.
    EmbedAmount,
    /// An embed carried more fields than allowed.
    EmbedFieldAmount,
    /// An embed's texts were over the limit together, by the given number
    /// of code points.
    EmbedTooLong(usize),
}

/// One titled field of an embed.
#[derive(Clone, Debug)]
pub struct EmbedField {
    /// The field's title.
    pub name: String,
    /// The field's text.
    pub value: String,
}

/// A rich embed attached to a message.
#[derive(Clone, Debug)]
pub struct CreateEmbed {
    /// The embed's title.
    pub title: Option<String>,
    /// The embed's body text.
    pub description: Option<String>,
    /// The text of the embed's footer.
    pub footer_text: Option<String>,
    /// The name in the embed's author line.
    pub author_name: Option<String>,
    /// The embed's titled fields.
    pub fields: Vec<EmbedField>,
}

/// The number of code points in an optional text.
pub open spec fn opt_text_len(s: Option<String>) -> int {
    match s {
        Some(t) => t@.len() as int,
        None => 0,
    }
}

/// The total number of code points across a prefix of an embed's fields.
pub open spec fn fields_len(s: Seq<EmbedField>) -> int
    decreases s.len(),
{
    if s.len() == 0 {
        0
    } else {
        fields_len(s.drop_last()) + s.last().name@.len() + s.last().value@.len()
    }
}

/// The number of code points in an optional text.
fn opt_text_count(s: &Option<String>) -> (n: usize)
    ensures
        n == opt_text_len(*s),
{
    match s {
        Some(t) => t.as_str().unicode_len(),
        None => 0,
    }
}

impl CreateEmbed {
    /// An embed with no texts and no fields.
    pub fn new() -> (e: CreateEmbed)
        ensures
            e.title is None,
            e.description is None,
            e.footer_text is None,
            e.author_name is None,
            e.fields@ == Seq::<EmbedField>::empty(),
    {
        CreateEmbed {
            title: None,
            description: None,
            footer_text: None,
            author_name: None,
            fields: Vec::new(),
        }
    }

    /// The total number of code points across the embed's texts.
    pub open spec fn total_len(self) -> int {
        opt_text_len(self.title) + opt_text_len(self.description) + opt_text_len(self.footer_text)
            + opt_text_len(self.author_name) + fields_len(self.fields@)
    }

    /// The length check this embed must pass before being sent: no more
    /// fields than allowed, and the texts within the total limit.
    pub open spec fn check_length_spec(self) -> Result<(), ModelError> {
        if self.fields@.len() > EMBED_MAX_FIELDS {
            Err(ModelError::EmbedFieldAmount)
        } else if self.total_len() > EMBED_MAX_LENGTH {
            Err(
                ModelError::EmbedTooLong(
                    if self.total_len() - EMBED_MAX_LENGTH > usize::MAX {
                        usize::MAX
                    } else {
                        (self.total_len() - EMBED_MAX_LENGTH) as usize
                    },
                ),
            )
        } else {
            Ok(())
        }
    }

    /// Check the embed against the wire limits: at most `EMBED_MAX_FIELDS`
    /// fields, and at most `EMBED_MAX_LENGTH` code points across its texts.
    pub fn check_length(&self) -> (r: Result<(), ModelError>)
        ensures
            r == self.check_length_spec(),
    {
        if self.fields.len() > EMBED_MAX_FIELDS {
            return Err(ModelError::EmbedFieldAmount);
        }
        let mut total: u128 = opt_text_count(&self.title) as u128;
        total = total + opt_text_count(&self.description) as u128;
        total = total + opt_text_count(&self.footer_text) as u128;
        total = total + opt_text_count(&self.author_name) as u128;
        let base: Ghost<int> = Ghost(total as int);
        let mut j: usize = 0;
        while j < self.fields.len()
            invariant
                j <= self.fields@.len() <= EMBED_MAX_FIELDS,
                total == base@ + fields_len(self.fields@.take(j as int)),
                base@ <= 4 * 0xFFFF_FFFF_FFFF_FFFFu128,
                total <= 4 * 0xFFFF_FFFF_FFFF_FFFFu128 + j * 0x2_0000_0000_0000_0000u128,
            decreases self.fields@.len() - j,
        {
            let f = &self.fields[j];
            proof {
                assert(self.fields@.take(j + 1).drop_last() =~= self.fields@.take(j as int));
                assert(self.fields@.take(j + 1).last() == self.fields@[j as int]);
            }
            total = total + f.name.as_str().unicode_len() as u128;
            total = total + f.value.as_str().unicode_len() as u128;
            j = j + 1;
        }
        proof {
            assert(self.fields@.take(self.fields@.len() as int) =~= self.fields@);
        }
        if total > EMBED_MAX_LENGTH as u128 {
            let over: u128 = total - EMBED_MAX_LENGTH as u128;
            let amount: usize = if over > usize::MAX as u128 {
                usize::MAX
            } else {
                over as usize
            };
            Err(ModelError::EmbedTooLong(amount))
        } else {
            Ok(())
        }
    }
}

/// The length check a list of embeds must pass: each embed in order, with
/// the first failure reported.
pub open spec fn embeds_check_spec(s: Seq<CreateEmbed>) -> Result<(), ModelError>
    decreases s.len(),
{
    if s.len() == 0 {
        Ok(())
    } else {
        match s[0].check_length_spec() {
            Err(e) => Err(e),
            Ok(_) => embeds_check_spec(s.drop_first()),
        }
    }
}

/// The mentions a message is allowed to ping.
#[derive(Clone, Debug)]
pub struct CreateAllowedMentions {
    /// Whether everyone may be pinged.
    pub everyone: bool,
    /// The users that may be pinged.
    pub users: Vec<UserId>,
    /// The roles that may be pinged, by id.
    pub roles: Vec<u64>,
}

impl CreateAllowedMentions {
    /// Allowed mentions that ping nobody.
    pub fn new() -> (m: CreateAllowedMentions)
        ensures
            !m.everyone,
            m.users@ == Seq::<UserId>::empty(),
            m.roles@ == Seq::<u64>::empty(),
    {
        CreateAllowedMentions { everyone: false, users: Vec::new(), roles: Vec::new() }
    }
}

/// A button in a message's component rows.
#[derive(Clone, Debug)]
pub struct CreateButton {
    /// The label shown on the button.
    pub label: String,
}

/// One row of a message's components.
#[derive(Clone, Debug)]
pub enum CreateActionRow {
    /// A row of buttons.
    Buttons(Vec<CreateButton>),
}

/// A new file to attach to a message.
#[derive(Clone, Debug)]
pub struct CreateAttachment {
    /// The name of the file.
    pub filename: String,
    /// The contents of the file.
    pub data: Vec<u8>,
}

/// The edit to apply to a message's attachments: files to add, and existing
/// attachments to keep.
#[derive(Clone, Debug)]
pub struct EditAttachments {
    /// The files to upload.
    pub new_attachments: Vec<CreateAttachment>,
    /// The existing attachments to keep.
    pub kept: Vec<AttachmentId>,
}

impl EditAttachments {
    /// An edit that drops every existing attachment and adds nothing.
    pub fn new() -> (a: EditAttachments)
        ensures
            a.new_attachments@ == Seq::<CreateAttachment>::empty(),
            a.kept@ == Seq::<AttachmentId>::empty(),
    {
        EditAttachments { new_attachments: Vec::new(), kept: Vec::new() }
    }

    /// Adds a new attachment to the edit.
    #[must_use]
    pub fn add(self, attachment: CreateAttachment) -> (r: EditAttachments)
        ensures
            r.new_attachments@ == self.new_attachments@.push(attachment),
            r.kept == self.kept,
    {
        let mut new_attachments = self.new_attachments;
        new_attachments.push(attachment);
        EditAttachments { new_attachments, kept: self.kept }
    }

    /// Keeps an existing attachment under the edit.
    #[must_use]
    pub fn keep(self, id: AttachmentId) -> (r: EditAttachments)
        ensures
            r.kept@ == self.kept@.push(id),
            r.new_attachments == self.new_attachments,
    {
        let mut kept = self.kept;
        kept.push(id);
        EditAttachments { new_attachments: self.new_attachments, kept }
    }
}

/// A builder to specify the fields to edit in an existing webhook's
/// message.
#[derive(Clone, Debug)]
pub struct EditWebhookMessage {
    /// The new content of the message, if it is to change.
    pub content: Option<String>,
    /// The new embed list of the message, if it is to change.
    pub embeds: Option<Vec<CreateEmbed>>,
    /// The mentions the message is allowed to ping, if they are to change.
    pub allowed_mentions: Option<CreateAllowedMentions>,
    /// The new component rows of the message, if they are to change.
    pub components: Option<Vec<CreateActionRow>>,
    /// The edit to apply to the message's attachments, if any.
    pub attachments: Option<EditAttachments>,
    /// The thread the message lives in, when it is not in the channel
    /// itself.
    pub thread_id: Option<ChannelId>,
}

impl EditWebhookMessage {
    /// An edit that changes nothing yet.
    pub fn new() -> (m: EditWebhookMessage)
        ensures
            m.content is None,
            m.embeds is None,
            m.allowed_mentions is None,
            m.components is None,
            m.attachments is None,
            m.thread_id is None,
    {
        EditWebhookMessage {
            content: None,
            embeds: None,
            allowed_mentions: None,
            components: None,
            attachments: None,
            thread_id: None,
        }
    }

    /// The length check this edit must pass before being sent: the content
    /// within its limit, then the number of embeds within its limit, then
    /// each embed within its own.
    pub open spec fn check_length_spec(self) -> Result<(), ModelError> {
        if self.content is Some && self.content->0@.len() > MESSAGE_CODE_LIMIT {
            Err(ModelError::MessageTooLong((self.content->0@.len() - MESSAGE_CODE_LIMIT) as usize))
        } else if self.embeds is Some && self.embeds->0@.len() > EMBED_MAX_COUNT {
            Err(ModelError::EmbedAmount)
        } else if self.embeds is Some {
            embeds_check_spec(self.embeds->0@)
        } else {
            Ok(())
        }
    }

    /// Check the edit against the wire limits: message contents must be
    /// under `MESSAGE_CODE_LIMIT` code points, and each of at most
    /// `EMBED_MAX_COUNT` embeds under its own limits.
    pub fn check_length(&self) -> (r: Result<(), ModelError>)
        ensures
            r == self.check_length_spec(),
    {
        if let Some(content) = &self.content {
            let n = content.as_str().unicode_len();
            if n > MESSAGE_CODE_LIMIT {
                return Err(ModelError::MessageTooLong(n - MESSAGE_CODE_LIMIT));
            }
        }
        if let Some(embeds) = &self.embeds {
            if embeds.len() > EMBED_MAX_COUNT {
                return Err(ModelError::EmbedAmount);
            }
            let mut j: usize = 0;
            proof {
                assert(embeds@.skip(0) =~= embeds@);
            }
            while j < embeds.len()
                invariant
                    j <= embeds@.len(),
                    self.embeds is Some,
                    embeds@ == self.embeds->0@,
                    !(self.content is Some && self.content->0@.len() > MESSAGE_CODE_LIMIT),
                    embeds@.len() <= EMBED_MAX_COUNT,
                    embeds_check_spec(embeds@.skip(j as int)) == embeds_check_spec(embeds@),
                decreases embeds@.len() - j,
            {
                proof {
                    assert(embeds@.skip(j as int)[0] == embeds@[j as int]);
                    assert(embeds@.skip(j as int).drop_first() =~= embeds@.skip(j + 1));
                }
                match embeds[j].check_length() {
                    Err(e) => {
                        proof {
                            assert(embeds_check_spec(embeds@.skip(j as int)) == Err::<
                                (),
                                ModelError,
                            >(e));
                        }
                        return Err(e);
                    },
                    Ok(_) => {},
                }
                j = j + 1;
            }
            proof {
                assert(embeds@.skip(embeds@.len() as int) =~= Seq::<CreateEmbed>::empty());
            }
        }
        Ok(())
    }

    /// Set the content of the message.
    #[must_use]
    pub fn content(self, content: String) -> (r: EditWebhookMessage)
        ensures
            r == (EditWebhookMessage { content: Some(content), ..self }),
    {
        EditWebhookMessage { content: Some(content), ..self }
    }

    /// Edit a message within the given thread, rather than in the channel
    /// itself.
    #[must_use]
    pub fn in_thread(self, thread_id: ChannelId) -> (r: EditWebhookMessage)
        ensures
            r == (EditWebhookMessage { thread_id: Some(thread_id), ..self }),
    {
        EditWebhookMessage { thread_id: Some(thread_id), ..self }
    }

    /// Adds an embed for the message: it joins any embeds this edit already
    /// carries. Embeds of the original message are still reset.
    #[must_use]
    pub fn add_embed(self, embed: CreateEmbed) -> (r: EditWebhookMessage)
        ensures
            r.embeds is Some,
            old_embeds_or_empty(self.embeds).push(embed) == r.embeds->0@,
            r == (EditWebhookMessage { embeds: r.embeds, ..self }),
    {
        let mut list = match self.embeds {
            Some(v) => v,
            None => Vec::new(),
        };
        list.push(embed);
        EditWebhookMessage { embeds: Some(list), ..self }
    }

    /// Adds multiple embeds to the message: they join any embeds this edit
    /// already carries. Embeds of the original message are still reset.
    #[must_use]
    pub fn add_embeds(self, embeds: Vec<CreateEmbed>) -> (r: EditWebhookMessage)
        ensures
            r.embeds is Some,
            old_embeds_or_empty(self.embeds) + embeds@ == r.embeds->0@,
            r == (EditWebhookMessage { embeds: r.embeds, ..self }),
    {
        let mut list = match self.embeds {
            Some(v) => v,
            None => Vec::new(),
        };
        let mut rest = embeds;
        list.append(&mut rest);
        EditWebhookMessage { embeds: Some(list), ..self }
    }

    /// Sets a single embed to include in the message, overwriting the embed
    /// list. To append embeds, call `add_embed` instead.
    #[must_use]
    pub fn embed(self, embed: CreateEmbed) -> (r: EditWebhookMessage)
        ensures
            r.embeds is Some,
            r.embeds->0@ == seq![embed],
            r == (EditWebhookMessage { embeds: r.embeds, ..self }),
    {
        let mut list = Vec::new();
        list.push(embed);
        EditWebhookMessage { embeds: Some(list), ..self }
    }

    /// Sets the embeds for the message, overwriting the embed list. To
    /// append embeds, call `add_embeds` instead.
    #[must_use]
    pub fn embeds(self, embeds: Vec<CreateEmbed>) -> (r: EditWebhookMessage)
        ensures
            r == (EditWebhookMessage { embeds: Some(embeds), ..self }),
    {
        EditWebhookMessage { embeds: Some(embeds), ..self }
    }

    /// Set the allowed mentions for the message.
    #[must_use]
    pub fn allowed_mentions(self, allowed_mentions: CreateAllowedMentions) -> (r:
        EditWebhookMessage)
        ensures
            r == (EditWebhookMessage { allowed_mentions: Some(allowed_mentions), ..self }),
    {
        EditWebhookMessage { allowed_mentions: Some(allowed_mentions), ..self }
    }

    /// Sets the components for this message.
    #[must_use]
    pub fn components(self, components: Vec<CreateActionRow>) -> (r: EditWebhookMessage)
        ensures
            r == (EditWebhookMessage { components: Some(components), ..self }),
    {
        EditWebhookMessage { components: Some(components), ..self }
    }

    /// Sets the edit to apply to the message's attachments.
    #[must_use]
    pub fn attachments(self, attachments: EditAttachments) -> (r: EditWebhookMessage)
        ensures
            r == (EditWebhookMessage { attachments: Some(attachments), ..self }),
    {
        EditWebhookMessage { attachments: Some(attachments), ..self }
    }

    /// Adds a new attachment to the message, keeping any attachment edits
    /// already recorded here.
    #[must_use]
    pub fn new_attachment(self, attachment: CreateAttachment) -> (r: EditWebhookMessage)
        ensures
            r.attachments is Some,
            r.attachments->0.new_attachments@ == old_new_attachments(self.attachments).push(
                attachment,
            ),
            r.attachments->0.kept@ == old_kept(self.attachments),
            r == (EditWebhookMessage { attachments: r.attachments, ..self }),
    {
        let current = match self.attachments {
            Some(a) => a,
            None => EditAttachments::new(),
        };
        EditWebhookMessage { attachments: Some(current.add(attachment)), ..self }
    }

    /// Keeps an existing attachment on the message, keeping any attachment
    /// edits already recorded here.
    #[must_use]
    pub fn keep_existing_attachment(self, id: AttachmentId) -> (r: EditWebhookMessage)
        ensures
            r.attachments is Some,
            r.attachments->0.kept@ == old_kept(self.attachments).push(id),
            r.attachments->0.new_attachments@ == old_new_attachments(self.attachments),
            r == (EditWebhookMessage { attachments: r.attachments, ..self }),
    {
        let current = match self.attachments {
            Some(a) => a,
            None => EditAttachments::new(),
        };
        EditWebhookMessage { attachments: Some(current.keep(id)), ..self }
    }

    /// Drops every attachment of the message.
    #[must_use]
    pub fn clear_attachments(self) -> (r: EditWebhookMessage)
        ensures
            r.attachments is Some,
            r.attachments->0.new_attachments@ == Seq::<CreateAttachment>::empty(),
            r.attachments->0.kept@ == Seq::<AttachmentId>::empty(),
            r == (EditWebhookMessage { attachments: r.attachments, ..self }),
    {
        EditWebhookMessage { attachments: Some(EditAttachments::new()), ..self }
    }

    /// Make the edit ready to send: check the wire limits, and fall back to
    /// the caller's default allowed mentions when this edit sets none. The
    /// sending itself — an HTTP request — is the caller's business.
    pub fn finalize(self, default_allowed_mentions: Option<CreateAllowedMentions>) -> (r: Result<
        EditWebhookMessage,
        ModelError,
    >)
        ensures
            r is Err <==> self.check_length_spec() is Err,
            r is Err ==> r->Err_0 == self.check_length_spec()->Err_0,
            r is Ok && self.allowed_mentions is Some ==> r->Ok_0 == self,
            r is Ok && self.allowed_mentions is None ==> r->Ok_0 == (EditWebhookMessage {
                allowed_mentions: default_allowed_mentions,
                ..self
            }),
    {
        match self.check_length() {
            Err(e) => Err(e),
            Ok(_) => {
                if self.allowed_mentions.is_some() {
                    Ok(self)
                } else {
                    Ok(EditWebhookMessage { allowed_mentions: default_allowed_mentions, ..self })
                }
            },
        }
    }
}

impl Default for EditWebhookMessage {
    /// Equivalent to `EditWebhookMessage::new`.
    fn default() -> (m: EditWebhookMessage)
        ensures
            m.content is None,
            m.embeds is None,
            m.allowed_mentions is None,
            m.components is None,
            m.attachments is None,
            m.thread_id is None,
    {
        EditWebhookMessage::new()
    }
}

/// The embed list an edit already carries, or the empty one.
pub open spec fn old_embeds_or_empty(embeds: Option<Vec<CreateEmbed>>) -> Seq<CreateEmbed> {
    match embeds {
        Some(v) => v@,
        None => Seq::empty(),
    }
}

/// The files an attachment edit already adds, or none.
pub open spec fn old_new_attachments(attachments: Option<EditAttachments>) -> Seq<CreateAttachment> {
    match attachments {
        Some(a) => a.new_attachments@,
        None => Seq::empty(),
    }
}

/// The attachments an attachment edit already keeps, or none.
pub open spec fn old_kept(attachments: Option<EditAttachments>) -> Seq<AttachmentId> {
    match attachments {
        Some(a) => a.kept@,
        None => Seq::empty(),
    }
}

} // verus!
