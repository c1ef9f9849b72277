//! The blocks that make up the content of a message.

use vstd::prelude::*;
use vstd::string::*;

use crate::json::{
    json_object, json_string, json_view, opt_str, put_text, put_text_if_some, single, single_value,
    tagged, tagged_value, with_entry, JsonView,
};
use crate::text::{join3, opt_view, quote, quoted};

verus! {

/// Where an image comes from.
#[derive(Debug)]
pub enum ImageSource {
    /// The image itself, in base64.
    Base64 { media_type: String, data: String },
    /// The address of the image.
    Url { url: String },
}

/// Where a document comes from.
#[derive(Debug)]
pub enum DocumentSource {
    /// The document itself, in base64.
    Base64 { media_type: String, data: String },
}

/// The address of an image.
#[derive(Debug)]
pub struct ImageUrl {
    pub url: String,
}

/// The address of a document.
#[derive(Debug)]
pub struct DocumentUrl {
    pub url: String,
}

/// One block of the content of a message.
#[derive(Debug)]
#[allow(inconsistent_fields)]
pub enum MessageBlock {
    /// Plain text.
    Text { text: String },
    /// An image by its source.
    Image { source: ImageSource },
    /// An image by its address.
    ImageUrl { image_url: ImageUrl },
    /// A document by its source.
    Document { source: DocumentSource },
    /// A document by its address.
    DocumentUrl { document_url: DocumentUrl },
    /// What the model thought, and the provider's signature on it.
    Thinking { thinking: String, signature: Option<String> },
}

/// What an image source holds.
pub enum ImageSourceView {
    Base64 { media_type: Seq<char>, data: Seq<char> },
    Url { url: Seq<char> },
}

/// What a document source holds.
pub enum DocumentSourceView {
    Base64 { media_type: Seq<char>, data: Seq<char> },
}

/// What a block holds.
#[allow(inconsistent_fields)]
pub enum MessageBlockView {
    Text { text: Seq<char> },
    Image { source: ImageSourceView },
    ImageUrl { url: Seq<char> },
    Document { source: DocumentSourceView },
    DocumentUrl { url: Seq<char> },
    Thinking { thinking: Seq<char>, signature: Option<Seq<char>> },
}

impl View for ImageSource {
    type V = ImageSourceView;

    open spec fn view(&self) -> ImageSourceView {
        match self {
            ImageSource::Base64 { media_type, data } => ImageSourceView::Base64 {
                media_type: media_type@,
                data: data@,
            },
            ImageSource::Url { url } => ImageSourceView::Url { url: url@ },
        }
    }
}

impl View for DocumentSource {
    type V = DocumentSourceView;

    open spec fn view(&self) -> DocumentSourceView {
        match self {
            DocumentSource::Base64 { media_type, data } => DocumentSourceView::Base64 {
                media_type: media_type@,
                data: data@,
            },
        }
    }
}

impl View for MessageBlock {
    type V = MessageBlockView;

    open spec fn view(&self) -> MessageBlockView {
        match self {
            MessageBlock::Text { text } => MessageBlockView::Text { text: text@ },
            MessageBlock::Image { source } => MessageBlockView::Image { source: source@ },
            MessageBlock::ImageUrl { image_url } => MessageBlockView::ImageUrl {
                url: image_url.url@,
            },
            MessageBlock::Document { source } => MessageBlockView::Document { source: source@ },
            MessageBlock::DocumentUrl { document_url } => MessageBlockView::DocumentUrl {
                url: document_url.url@,
            },
            MessageBlock::Thinking { thinking, signature } => MessageBlockView::Thinking {
                thinking: thinking@,
                signature: opt_view(*signature),
            },
        }
    }
}

impl Clone for ImageSource {
    fn clone(&self) -> (copy: Self)
        ensures
            copy@ == self@,
    {
        match self {
            ImageSource::Base64 { media_type, data } => ImageSource::Base64 {
                media_type: media_type.clone(),
                data: data.clone(),
            },
            ImageSource::Url { url } => ImageSource::Url { url: url.clone() },
        }
    }
}

impl Clone for DocumentSource {
    fn clone(&self) -> (copy: Self)
        ensures
            copy@ == self@,
    {
        match self {
            DocumentSource::Base64 { media_type, data } => DocumentSource::Base64 {
                media_type: media_type.clone(),
                data: data.clone(),
            },
        }
    }
}

impl Clone for MessageBlock {
    fn clone(&self) -> (copy: Self)
        ensures
            copy@ == self@,
    {
        match self {
            MessageBlock::Text { text } => MessageBlock::Text { text: text.clone() },
            MessageBlock::Image { source } => MessageBlock::Image { source: source.clone() },
            MessageBlock::ImageUrl { image_url } => MessageBlock::ImageUrl {
                image_url: ImageUrl { url: image_url.url.clone() },
            },
            MessageBlock::Document { source } => MessageBlock::Document { source: source.clone() },
            MessageBlock::DocumentUrl { document_url } => MessageBlock::DocumentUrl {
                document_url: DocumentUrl { url: document_url.url.clone() },
            },
            MessageBlock::Thinking { thinking, signature } => MessageBlock::Thinking {
                thinking: thinking.clone(),
                signature: signature.clone(),
            },
        }
    }
}

impl ImageSourceView {
    /// The JSON object that carries an image source.
    pub open spec fn wire(self) -> JsonView {
        match self {
            ImageSourceView::Base64 { media_type, data } => base64_wire(media_type, data),
            ImageSourceView::Url { url } => tagged("url"@, "url"@, JsonView::Str(url)),
        }
    }

    /// What `Debug` shows of an image source.
    pub open spec fn debug(self) -> Seq<char> {
        match self {
            ImageSourceView::Base64 { media_type, data } => base64_debug(media_type, data),
            ImageSourceView::Url { url } => url_debug("Url"@, url),
        }
    }
}

impl DocumentSourceView {
    /// The JSON object that carries a document source.
    pub open spec fn wire(self) -> JsonView {
        match self {
            DocumentSourceView::Base64 { media_type, data } => base64_wire(media_type, data),
        }
    }

    /// What `Debug` shows of a document source.
    pub open spec fn debug(self) -> Seq<char> {
        match self {
            DocumentSourceView::Base64 { media_type, data } => base64_debug(media_type, data),
        }
    }
}

/// The JSON object that carries data in base64.
pub open spec fn base64_wire(media_type: Seq<char>, data: Seq<char>) -> JsonView {
    JsonView::Object(
        map![
            "type"@ => JsonView::Str("base64"@),
            "media_type"@ => JsonView::Str(media_type),
            "data"@ => JsonView::Str(data)
        ],
    )
}

/// What `Debug` shows of data in base64.
pub open spec fn base64_debug(media_type: Seq<char>, data: Seq<char>) -> Seq<char> {
    "Base64 { media_type: "@ + quoted(media_type) + ", data: "@ + quoted(data) + " }"@
}

/// What `Debug` shows of a value that holds an address alone.
pub open spec fn url_debug(name: Seq<char>, url: Seq<char>) -> Seq<char> {
    name + " { url: "@ + quoted(url) + " }"@
}

/// What `Debug` shows of an optional text.
pub open spec fn opt_debug(text: Option<Seq<char>>) -> Seq<char> {
    match text {
        Some(text) => "Some("@ + quoted(text) + ")"@,
        None => "None"@,
    }
}

impl MessageBlockView {
    /// The text of a text block.
    pub open spec fn as_text(self) -> Option<Seq<char>> {
        match self {
            MessageBlockView::Text { text } => Some(text),
            _ => None,
        }
    }

    /// The JSON object that carries a block.
    pub open spec fn wire(self) -> JsonView {
        match self {
            MessageBlockView::Text { text } => tagged("text"@, "text"@, JsonView::Str(text)),
            MessageBlockView::Image { source } => tagged("image"@, "source"@, source.wire()),
            MessageBlockView::ImageUrl { url } => tagged(
                "image_url"@,
                "image_url"@,
                single("url"@, JsonView::Str(url)),
            ),
            MessageBlockView::Document { source } => tagged("document"@, "source"@, source.wire()),
            MessageBlockView::DocumentUrl { url } => tagged(
                "document_url"@,
                "document_url"@,
                single("url"@, JsonView::Str(url)),
            ),
            MessageBlockView::Thinking { thinking, signature } => JsonView::Object(
                with_entry(
                    map!["type"@ => JsonView::Str("thinking"@), "thinking"@ => JsonView::Str(thinking)],
                    "signature"@,
                    opt_str(signature),
                ),
            ),
        }
    }

    /// What `Debug` shows of a block.
    pub open spec fn debug(self) -> Seq<char> {
        match self {
            MessageBlockView::Text { text } => "Text { text: "@ + quoted(text) + " }"@,
            MessageBlockView::Image { source } => "Image { source: "@ + source.debug() + " }"@,
            MessageBlockView::ImageUrl { url } => "ImageUrl { image_url: "@ + url_debug(
                "ImageUrl"@,
                url,
            ) + " }"@,
            MessageBlockView::Document { source } => "Document { source: "@ + source.debug()
                + " }"@,
            MessageBlockView::DocumentUrl { url } => "DocumentUrl { document_url: "@ + url_debug(
                "DocumentUrl"@,
                url,
            ) + " }"@,
            MessageBlockView::Thinking { thinking, signature } => "Thinking { thinking: "@ + quoted(
                thinking,
            ) + ", signature: "@ + opt_debug(signature) + " }"@,
        }
    }
}

fn base64_value(media_type: &str, data: &str) -> (value: serde_json::Value)
    ensures
        json_view(value) == base64_wire(media_type@, data@),
{
    let mut map = serde_json::Map::new();
    put_text(&mut map, "type", "base64");
    put_text(&mut map, "media_type", media_type);
    put_text(&mut map, "data", data);
    json_object(map)
}

fn base64_debug_text(media_type: &str, data: &str) -> (text: String)
    ensures
        text@ == base64_debug(media_type@, data@),
{
    let head = join3("Base64 { media_type: ", quote(media_type).as_str(), ", data: ");
    head.concat(quote(data).as_str()).concat(" }")
}

fn url_debug_text(name: &str, url: &str) -> (text: String)
    ensures
        text@ == url_debug(name@, url@),
{
    join3(name, " { url: ", quote(url).as_str()).concat(" }")
}

fn opt_debug_text(text: &Option<String>) -> (shown: String)
    ensures
        shown@ == opt_debug(opt_view(*text)),
{
    match text {
        Some(text) => join3("Some(", quote(text.as_str()).as_str(), ")"),
        None => "None".to_owned(),
    }
}

impl ImageSource {
    /// The JSON object that carries the source.
    pub fn to_value(&self) -> (value: serde_json::Value)
        ensures
            json_view(value) == self@.wire(),
    {
        match self {
            ImageSource::Base64 { media_type, data } => base64_value(
                media_type.as_str(),
                data.as_str(),
            ),
            ImageSource::Url { url } => tagged_value("url", "url", json_string(url.clone())),
        }
    }

    fn debug_text(&self) -> (text: String)
        ensures
            text@ == self@.debug(),
    {
        match self {
            ImageSource::Base64 { media_type, data } => base64_debug_text(
                media_type.as_str(),
                data.as_str(),
            ),
            ImageSource::Url { url } => url_debug_text("Url", url.as_str()),
        }
    }
}

impl DocumentSource {
    /// The JSON object that carries the source.
    pub fn to_value(&self) -> (value: serde_json::Value)
        ensures
            json_view(value) == self@.wire(),
    {
        match self {
            DocumentSource::Base64 { media_type, data } => base64_value(
                media_type.as_str(),
                data.as_str(),
            ),
        }
    }

    fn debug_text(&self) -> (text: String)
        ensures
            text@ == self@.debug(),
    {
        match self {
            DocumentSource::Base64 { media_type, data } => base64_debug_text(
                media_type.as_str(),
                data.as_str(),
            ),
        }
    }
}

impl MessageBlock {
    /// A block of text.
    pub fn text(text: &str) -> (block: Self)
        ensures
            block@ == (MessageBlockView::Text { text: text@ }),
    {
        MessageBlock::Text { text: text.to_owned() }
    }

    /// A thinking block without a signature.
    pub fn thinking_unsigned(thinking: &str) -> (block: Self)
        ensures
            block@ == (MessageBlockView::Thinking { thinking: thinking@, signature: None }),
    {
        MessageBlock::Thinking { thinking: thinking.to_owned(), signature: None }
    }

    /// An image given in base64.
    pub fn image_base64(media_type: &str, data: &str) -> (block: Self)
        ensures
            block@ == (MessageBlockView::Image {
                source: ImageSourceView::Base64 { media_type: media_type@, data: data@ },
            }),
    {
        MessageBlock::Image {
            source: ImageSource::Base64 { media_type: media_type.to_owned(), data: data.to_owned() },
        }
    }

    /// An image given by its address.
    pub fn image_url(url: &str) -> (block: Self)
        ensures
            block@ == (MessageBlockView::ImageUrl { url: url@ }),
    {
        MessageBlock::ImageUrl { image_url: ImageUrl { url: url.to_owned() } }
    }

    /// A document given in base64.
    pub fn document_base64(media_type: &str, data: &str) -> (block: Self)
        ensures
            block@ == (MessageBlockView::Document {
                source: DocumentSourceView::Base64 { media_type: media_type@, data: data@ },
            }),
    {
        MessageBlock::Document {
            source: DocumentSource::Base64 {
                media_type: media_type.to_owned(),
                data: data.to_owned(),
            },
        }
    }

    /// A document given by its address.
    pub fn document_url(url: &str) -> (block: Self)
        ensures
            block@ == (MessageBlockView::DocumentUrl { url: url@ }),
    {
        MessageBlock::DocumentUrl { document_url: DocumentUrl { url: url.to_owned() } }
    }

    /// The text of a text block.
    pub fn as_text(&self) -> (text: Option<&str>)
        ensures
            match self@.as_text() {
                Some(s) => text is Some && text->0@ == s,
                None => text is None,
            },
    {
        match self {
            MessageBlock::Text { text } => Some(text.as_str()),
            _ => None,
        }
    }

    /// Whether the block is a text block.
    pub fn is_text(&self) -> (is_text: bool)
        ensures
            is_text == self@ is Text,
    {
        match self {
            MessageBlock::Text { .. } => true,
            _ => false,
        }
    }

    /// The JSON object that carries the block.
    pub fn to_value(&self) -> (value: serde_json::Value)
        ensures
            json_view(value) == self@.wire(),
    {
        match self {
            MessageBlock::Text { text } => tagged_value("text", "text", json_string(text.clone())),
            MessageBlock::Image { source } => tagged_value("image", "source", source.to_value()),
            MessageBlock::ImageUrl { image_url } => tagged_value(
                "image_url",
                "image_url",
                single_value("url", json_string(image_url.url.clone())),
            ),
            MessageBlock::Document { source } => tagged_value(
                "document",
                "source",
                source.to_value(),
            ),
            MessageBlock::DocumentUrl { document_url } => tagged_value(
                "document_url",
                "document_url",
                single_value("url", json_string(document_url.url.clone())),
            ),
            MessageBlock::Thinking { thinking, signature } => {
                let mut map = serde_json::Map::new();
                put_text(&mut map, "type", "thinking");
                put_text(&mut map, "thinking", thinking.as_str());
                put_text_if_some(&mut map, "signature", signature);
                json_object(map)
            },
        }
    }

    /// What `Debug` shows of the block.
    pub fn debug_text(&self) -> (text: String)
        ensures
            text@ == self@.debug(),
    {
        match self {
            MessageBlock::Text { text } => join3(
                "Text { text: ",
                quote(text.as_str()).as_str(),
                " }",
            ),
            MessageBlock::Image { source } => join3(
                "Image { source: ",
                source.debug_text().as_str(),
                " }",
            ),
            MessageBlock::ImageUrl { image_url } => join3(
                "ImageUrl { image_url: ",
                url_debug_text("ImageUrl", image_url.url.as_str()).as_str(),
                " }",
            ),
            MessageBlock::Document { source } => join3(
                "Document { source: ",
                source.debug_text().as_str(),
                " }",
            ),
            MessageBlock::DocumentUrl { document_url } => join3(
                "DocumentUrl { document_url: ",
                url_debug_text("DocumentUrl", document_url.url.as_str()).as_str(),
                " }",
            ),
            MessageBlock::Thinking { thinking, signature } => {
                let head = join3(
                    "Thinking { thinking: ",
                    quote(thinking.as_str()).as_str(),
                    ", signature: ",
                );
                head.concat(opt_debug_text(signature).as_str()).concat(" }")
            },
        }
    }
}

} // verus!
