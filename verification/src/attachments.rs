//! Attachments: which one is meant, where it is saved, and how it is shown.

use crate::bridge::{attachment_mime_type, display_of, or_text, text_or, AttachmentPreview};
use crate::models::{AttachmentMetadata, BinaryContent};
use crate::text::{chars_of, is_blank, opt_text, str_eq, string_of, trim_chars, trimmed};
use vstd::prelude::*;

verus! {

/// The content type shown where nothing tells another.
pub const DEFAULT_MIME_TYPE: &'static str = "application/octet-stream";

/// The standard Base64 encoding of bytes, with padding, as
/// `base64::engine::general_purpose::STANDARD` encodes them.
pub uninterp spec fn base64_of(bytes: Seq<u8>) -> Seq<char>;

/// Encodes bytes with `Engine::encode` of the `STANDARD` engine. The result
/// depends on the bytes alone and is named `base64_of`. The encoder gives up
/// on inputs whose encoding would not fit in memory, which are left out.
#[verifier::external_body]
fn base64_encode(bytes: &Vec<u8>) -> (text: String)
    requires
        bytes.len() <= usize::MAX / 2,
    ensures
        text@ == base64_of(bytes@),
{
    base64::Engine::encode(&base64::engine::general_purpose::STANDARD, bytes)
}

/// Position of the first attachment at or after `from` whose id reads as
/// `id`, or the number of attachments.
pub open spec fn attachment_index_from(
    attachments: Seq<AttachmentMetadata>,
    id: Seq<char>,
    from: int,
) -> int
    decreases attachments.len() - from,
{
    if 0 <= from < attachments.len() {
        if display_of(attachments[from].id@) == Some(id) {
            from
        } else {
            attachment_index_from(attachments, id, from + 1)
        }
    } else {
        attachments.len() as int
    }
}

/// The message for an attachment that an issue does not have.
pub open spec fn missing_attachment_of(attachment_id: Seq<char>, issue_key: Seq<char>) -> Seq<char> {
    "Attachment "@ + attachment_id + " not found on issue "@ + issue_key
}

/// The position of the attachment with the given id among the attachments of
/// an issue.
pub fn find_attachment_metadata(
    attachments: &Vec<AttachmentMetadata>,
    issue_key: &str,
    attachment_id: &str,
) -> (found: Result<usize, String>)
    ensures
        match found {
            Ok(at) => at < attachments.len() && at == attachment_index_from(
                attachments@,
                attachment_id@,
                0,
            ),
            Err(message) => attachment_index_from(attachments@, attachment_id@, 0)
                == attachments.len() && message@ == missing_attachment_of(
                attachment_id@,
                issue_key@,
            ),
        },
{
    let mut i: usize = 0;
    while i < attachments.len()
        invariant
            i <= attachments.len(),
            attachment_index_from(attachments@, attachment_id@, 0) == attachment_index_from(
                attachments@,
                attachment_id@,
                i as int,
            ),
        decreases attachments.len() - i,
    {
        let same = match crate::bridge::coerce_display_value(&attachments[i].id) {
            Some(text) => str_eq(text.as_str(), attachment_id),
            None => false,
        };
        if same {
            return Ok(i);
        }
        i += 1;
    }
    Err(crate::request::concat4("Attachment ", attachment_id, " not found on issue ", issue_key))
}

/// Where a download goes.
#[derive(Debug)]
pub enum Destination {
    /// The path as it is given, trimmed.
    Path(String),
    /// A file of the given name in the download directory of the user, or
    /// in the current directory where there is none.
    FileName(String),
}

/// Whether a trimmed destination is a path: whether it holds a slash or a
/// backslash.
pub open spec fn is_path(text: Seq<char>) -> bool {
    text.contains('/') || text.contains('\\')
}

/// Tells whether the text holds the character.
fn holds_char(chars: &Vec<char>, c: char) -> (found: bool)
    ensures
        found == chars@.contains(c),
{
    let mut i: usize = 0;
    while i < chars.len()
        invariant
            i <= chars.len(),
            forall|k: int| 0 <= k < i ==> chars@[k] != c,
        decreases chars.len() - i,
    {
        if chars[i] == c {
            return true;
        }
        i += 1;
    }
    false
}

/// Where a download goes: a blank destination is refused, one with a slash
/// or a backslash is a path, any other is a file name.
pub fn resolve_download_destination(dest_path: &str) -> (destination: Result<Destination, String>)
    ensures
        match destination {
            Ok(Destination::Path(path)) => !is_blank(dest_path@) && is_path(trimmed(dest_path@))
                && path@ == trimmed(dest_path@),
            Ok(Destination::FileName(name)) => !is_blank(dest_path@) && !is_path(
                trimmed(dest_path@),
            ) && name@ == trimmed(dest_path@),
            Err(message) => is_blank(dest_path@) && message@ == "Destination path cannot be empty"@,
        },
{
    let chars = chars_of(dest_path);
    let text = trim_chars(&chars);
    if text.len() == 0 {
        return Err("Destination path cannot be empty".to_owned());
    }
    if holds_char(&text, '/') || holds_char(&text, '\\') {
        Ok(Destination::Path(string_of(&text)))
    } else {
        Ok(Destination::FileName(string_of(&text)))
    }
}

/// The preview of a download: its content type and its bytes in Base64.
pub fn preview_of_content(mime_type: String, content: &BinaryContent) -> (preview: AttachmentPreview)
    requires
        content.bytes.len() <= usize::MAX / 2,
    ensures
        preview.mime_type == mime_type,
        preview.data_base64@ == base64_of(content.bytes@),
{
    AttachmentPreview { mime_type, data_base64: base64_encode(&content.bytes) }
}

/// The preview of an attachment: the content type of the response, else
/// that of the attachment, else `application/octet-stream`; and the bytes in
/// Base64. Nothing for a download too large to encode.
pub fn preview_attachment(attachment: &AttachmentMetadata, content: &BinaryContent) -> (preview:
    Option<AttachmentPreview>)
    ensures
        preview is Some <==> content.bytes.len() <= usize::MAX / 2,
        preview matches Some(p) ==> p.data_base64@ == base64_of(content.bytes@) && p.mime_type@
            == text_or(
            or_text(
                or_text(opt_text(content.mime_type), opt_text(attachment.mime_type)),
                opt_text(attachment.mimetype),
            ),
            DEFAULT_MIME_TYPE@,
        ),
{
    if content.bytes.len() > usize::MAX / 2 {
        return None;
    }
    let mime = attachment_mime_type(attachment, crate::text::clone_text_option(&content.mime_type));
    Some(preview_of_content(mime, content))
}

/// The preview of an inline resource: the content type of the response, or
/// `application/octet-stream`; and the bytes in Base64. Nothing for a
/// download too large to encode.
pub fn preview_inline_resource(content: &BinaryContent) -> (preview: Option<AttachmentPreview>)
    ensures
        preview is Some <==> content.bytes.len() <= usize::MAX / 2,
        preview matches Some(p) ==> p.data_base64@ == base64_of(content.bytes@) && p.mime_type@
            == text_or(opt_text(content.mime_type), DEFAULT_MIME_TYPE@),
{
    if content.bytes.len() > usize::MAX / 2 {
        return None;
    }
    let mime = match &content.mime_type {
        Some(mime) => mime.clone(),
        None => DEFAULT_MIME_TYPE.to_owned(),
    };
    Some(preview_of_content(mime, content))
}

} // verus!
