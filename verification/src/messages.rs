//! The application-level message model: requests, responses, errors, and the
//! envelope that carries them through the overlay, together with the ghost
//! views that contracts are stated over.

use vstd::prelude::*;

verus! {

/// Identity of a node in the overlay network.
pub type NodeId = u8;

/// A request about a named text resource.
#[derive(Debug)]
pub enum TextRequest {
    TextList,
    Text(String),
}

/// A request about a named binary media resource.
#[derive(Debug)]
pub enum MediaRequest {
    MediaList,
    Media(String),
}

/// A chat request: the client list, or a message to another client.
#[derive(Debug)]
pub enum ChatRequest {
    ClientList,
    SendMessage { to: NodeId, message: String },
}

/// A probe for the type of a server.
#[derive(PartialEq, Eq, Structural, Clone, Copy, Debug)]
pub enum DiscoveryRequest {
    ServerTypeQuery,
}

/// The type a server reports in a discovery response.
#[derive(PartialEq, Eq, Structural, Clone, Copy, Debug)]
pub enum ServerType {
    TextServer,
    MediaServer,
    ChatServer,
}

/// The request families the protocol knows.
#[derive(Debug)]
pub enum RequestType {
    TextRequest(TextRequest),
    MediaRequest(MediaRequest),
    ChatRequest(ChatRequest),
    DiscoveryRequest(DiscoveryRequest),
}

/// A response about text resources.
#[derive(Debug)]
pub enum TextResponse {
    TextList(Vec<String>),
    Text(String),
    NotFound(String),
}

/// A response about media resources.
#[derive(Debug)]
pub enum MediaResponse {
    MediaList(Vec<String>),
    Media(Vec<u8>),
    NotFound(String),
}

/// A chat response.
#[derive(Debug)]
pub enum ChatResponse {
    ClientList(Vec<NodeId>),
    MessageFrom { from: NodeId, message: String },
    MessageSent,
}

/// The response families, symmetric to the request families.
#[derive(Debug)]
pub enum ResponseType {
    TextResponse(TextResponse),
    MediaResponse(MediaResponse),
    ChatResponse(ChatResponse),
    DiscoveryResponse(ServerType),
}

/// A protocol-level error.  `Unsupported` echoes a request that the receiver
/// does not serve.
#[derive(Debug)]
pub enum ErrorType {
    Unsupported(RequestType),
}

/// The discriminated content of a message.
#[derive(Debug)]
pub enum MessageType {
    Request(RequestType),
    Response(ResponseType),
    Error(ErrorType),
}

/// An application message: who sent it, who it is for, the 64-bit session
/// identifier correlating a response with its request, and the content.
#[derive(Debug)]
pub struct Message {
    pub source: NodeId,
    pub destination: NodeId,
    pub session_id: u64,
    pub content: MessageType,
}

// ---------------------------------------------------------------------------
// Ghost views.  Heap-carrying payloads (String, Vec) are abstracted to the
// sequences they denote, so that contracts speak about message contents
// rather than about particular allocations.
// ---------------------------------------------------------------------------

pub enum TextRequestView {
    TextList,
    Text(Seq<char>),
}

pub enum MediaRequestView {
    MediaList,
    Media(Seq<char>),
}

pub enum ChatRequestView {
    ClientList,
    SendMessage { to: NodeId, message: Seq<char> },
}

pub enum RequestTypeView {
    TextRequest(TextRequestView),
    MediaRequest(MediaRequestView),
    ChatRequest(ChatRequestView),
    DiscoveryRequest(DiscoveryRequest),
}

pub enum TextResponseView {
    TextList(Seq<Seq<char>>),
    Text(Seq<char>),
    NotFound(Seq<char>),
}

pub enum MediaResponseView {
    MediaList(Seq<Seq<char>>),
    Media(Seq<u8>),
    NotFound(Seq<char>),
}

pub enum ChatResponseView {
    ClientList(Seq<NodeId>),
    MessageFrom { from: NodeId, message: Seq<char> },
    MessageSent,
}

pub enum ResponseTypeView {
    TextResponse(TextResponseView),
    MediaResponse(MediaResponseView),
    ChatResponse(ChatResponseView),
    DiscoveryResponse(ServerType),
}

pub enum ErrorTypeView {
    Unsupported(RequestTypeView),
}

pub enum MessageTypeView {
    Request(RequestTypeView),
    Response(ResponseTypeView),
    Error(ErrorTypeView),
}

pub struct MessageView {
    pub source: NodeId,
    pub destination: NodeId,
    pub session_id: u64,
    pub content: MessageTypeView,
}

impl View for TextRequest {
    type V = TextRequestView;

    open spec fn view(&self) -> TextRequestView {
        match self {
            TextRequest::TextList => TextRequestView::TextList,
            TextRequest::Text(name) => TextRequestView::Text(name@),
        }
    }
}

impl View for MediaRequest {
    type V = MediaRequestView;

    open spec fn view(&self) -> MediaRequestView {
        match self {
            MediaRequest::MediaList => MediaRequestView::MediaList,
            MediaRequest::Media(name) => MediaRequestView::Media(name@),
        }
    }
}

impl View for ChatRequest {
    type V = ChatRequestView;

    open spec fn view(&self) -> ChatRequestView {
        match self {
            ChatRequest::ClientList => ChatRequestView::ClientList,
            ChatRequest::SendMessage { to, message } => ChatRequestView::SendMessage {
                to: *to,
                message: message@,
            },
        }
    }
}

impl View for RequestType {
    type V = RequestTypeView;

    open spec fn view(&self) -> RequestTypeView {
        match self {
            RequestType::TextRequest(r) => RequestTypeView::TextRequest(r@),
            RequestType::MediaRequest(r) => RequestTypeView::MediaRequest(r@),
            RequestType::ChatRequest(r) => RequestTypeView::ChatRequest(r@),
            RequestType::DiscoveryRequest(r) => RequestTypeView::DiscoveryRequest(*r),
        }
    }
}

impl View for TextResponse {
    type V = TextResponseView;

    open spec fn view(&self) -> TextResponseView {
        match self {
            TextResponse::TextList(names) => TextResponseView::TextList(names.deep_view()),
            TextResponse::Text(body) => TextResponseView::Text(body@),
            TextResponse::NotFound(name) => TextResponseView::NotFound(name@),
        }
    }
}

impl View for MediaResponse {
    type V = MediaResponseView;

    open spec fn view(&self) -> MediaResponseView {
        match self {
            MediaResponse::MediaList(names) => MediaResponseView::MediaList(names.deep_view()),
            MediaResponse::Media(bytes) => MediaResponseView::Media(bytes@),
            MediaResponse::NotFound(name) => MediaResponseView::NotFound(name@),
        }
    }
}

impl View for ChatResponse {
    type V = ChatResponseView;

    open spec fn view(&self) -> ChatResponseView {
        match self {
            ChatResponse::ClientList(clients) => ChatResponseView::ClientList(clients@),
            ChatResponse::MessageFrom { from, message } => ChatResponseView::MessageFrom {
                from: *from,
                message: message@,
            },
            ChatResponse::MessageSent => ChatResponseView::MessageSent,
        }
    }
}

impl View for ResponseType {
    type V = ResponseTypeView;

    open spec fn view(&self) -> ResponseTypeView {
        match self {
            ResponseType::TextResponse(r) => ResponseTypeView::TextResponse(r@),
            ResponseType::MediaResponse(r) => ResponseTypeView::MediaResponse(r@),
            ResponseType::ChatResponse(r) => ResponseTypeView::ChatResponse(r@),
            ResponseType::DiscoveryResponse(t) => ResponseTypeView::DiscoveryResponse(*t),
        }
    }
}

impl View for ErrorType {
    type V = ErrorTypeView;

    open spec fn view(&self) -> ErrorTypeView {
        match self {
            ErrorType::Unsupported(r) => ErrorTypeView::Unsupported(r@),
        }
    }
}

impl View for MessageType {
    type V = MessageTypeView;

    open spec fn view(&self) -> MessageTypeView {
        match self {
            MessageType::Request(r) => MessageTypeView::Request(r@),
            MessageType::Response(r) => MessageTypeView::Response(r@),
            MessageType::Error(e) => MessageTypeView::Error(e@),
        }
    }
}

impl View for Message {
    type V = MessageView;

    open spec fn view(&self) -> MessageView {
        MessageView {
            source: self.source,
            destination: self.destination,
            session_id: self.session_id,
            content: self.content@,
        }
    }
}

impl DeepView for Message {
    type V = MessageView;

    open spec fn deep_view(&self) -> MessageView {
        self@
    }
}

impl TextRequest {
    /// An explicit deep copy, with the copy provably equal to the original.
    pub fn duplicate(&self) -> (r: TextRequest)
        ensures
            r == *self,
    {
        match self {
            TextRequest::TextList => TextRequest::TextList,
            TextRequest::Text(name) => TextRequest::Text(name.clone()),
        }
    }
}

impl MediaRequest {
    /// An explicit deep copy, with the copy provably equal to the original.
    pub fn duplicate(&self) -> (r: MediaRequest)
        ensures
            r == *self,
    {
        match self {
            MediaRequest::MediaList => MediaRequest::MediaList,
            MediaRequest::Media(name) => MediaRequest::Media(name.clone()),
        }
    }
}

impl ChatRequest {
    /// An explicit deep copy, with the copy provably equal to the original.
    pub fn duplicate(&self) -> (r: ChatRequest)
        ensures
            r == *self,
    {
        match self {
            ChatRequest::ClientList => ChatRequest::ClientList,
            ChatRequest::SendMessage { to, message } => ChatRequest::SendMessage {
                to: *to,
                message: message.clone(),
            },
        }
    }
}

impl RequestType {
    /// An explicit deep copy, with the copy provably equal to the original.
    pub fn duplicate(&self) -> (r: RequestType)
        ensures
            r == *self,
    {
        match self {
            RequestType::TextRequest(r) => RequestType::TextRequest(r.duplicate()),
            RequestType::MediaRequest(r) => RequestType::MediaRequest(r.duplicate()),
            RequestType::ChatRequest(r) => RequestType::ChatRequest(r.duplicate()),
            RequestType::DiscoveryRequest(r) => RequestType::DiscoveryRequest(*r),
        }
    }
}

} // verus!
