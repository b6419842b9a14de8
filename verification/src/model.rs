//! The flat records exchanged with the remote service, with their
//! mathematical views.

use vstd::prelude::*;

verus! {

/// A project as listed by the remote service; a read-only view of
/// server state.
#[derive(Debug)]
pub struct Project {
    pub uid: String,
    pub title: String,
    pub description: String,
    pub recipient: String,
    pub slug: String,
    pub created_at: String,
    pub updated_at: String,
}

pub struct ProjectV {
    pub uid: Seq<char>,
    pub title: Seq<char>,
    pub description: Seq<char>,
    pub recipient: Seq<char>,
    pub slug: Seq<char>,
    pub created_at: Seq<char>,
    pub updated_at: Seq<char>,
}

impl View for Project {
    type V = ProjectV;

    open spec fn view(&self) -> ProjectV {
        ProjectV {
            uid: self.uid@,
            title: self.title@,
            description: self.description@,
            recipient: self.recipient@,
            slug: self.slug@,
            created_at: self.created_at@,
            updated_at: self.updated_at@,
        }
    }
}

/// Where a returned page stands within the full collection.
#[derive(Clone, Copy, PartialEq, Eq, Structural, Debug)]
pub struct PageInfo {
    pub total_items: u32,
    pub page: u32,
    pub page_limit: u32,
}

impl View for PageInfo {
    type V = PageInfo;

    open spec fn view(&self) -> PageInfo {
        *self
    }
}

/// One page of projects together with its position.
#[derive(Debug)]
pub struct ProjectsResponse {
    pub data: Vec<Project>,
    pub page_info: PageInfo,
}

pub struct ProjectsResponseV {
    pub data: Seq<ProjectV>,
    pub page_info: PageInfo,
}

impl View for ProjectsResponse {
    type V = ProjectsResponseV;

    open spec fn view(&self) -> ProjectsResponseV {
        ProjectsResponseV {
            data: self.data@.map(|i: int, p: Project| p@),
            page_info: self.page_info,
        }
    }
}

/// A creator profile; a read-only view of server state. The tip total is
/// kept as a decimal string end-to-end, never parsed into a local number.
#[derive(Debug)]
pub struct Creator {
    pub basename: String,
    pub display_name: String,
    pub bio: String,
    pub avatar_url: String,
    pub total_tips_received: String,
    pub tip_count: u32,
    pub is_active: bool,
    pub created_at: u64,
}

pub struct CreatorV {
    pub basename: Seq<char>,
    pub display_name: Seq<char>,
    pub bio: Seq<char>,
    pub avatar_url: Seq<char>,
    pub total_tips_received: Seq<char>,
    pub tip_count: u32,
    pub is_active: bool,
    pub created_at: u64,
}

impl View for Creator {
    type V = CreatorV;

    open spec fn view(&self) -> CreatorV {
        CreatorV {
            basename: self.basename@,
            display_name: self.display_name@,
            bio: self.bio@,
            avatar_url: self.avatar_url@,
            total_tips_received: self.total_tips_received@,
            tip_count: self.tip_count,
            is_active: self.is_active,
            created_at: self.created_at,
        }
    }
}

/// The input of one send-tip operation; it exists only for the duration
/// of the call. A missing `token` stands for the default symbol `ETH`.
#[derive(Debug)]
pub struct TipRequest {
    pub to: String,
    pub amount: String,
    pub message: String,
    pub token: Option<String>,
}

pub struct TipRequestV {
    pub to: Seq<char>,
    pub amount: Seq<char>,
    pub message: Seq<char>,
    pub token: Option<Seq<char>>,
}

impl View for TipRequest {
    type V = TipRequestV;

    open spec fn view(&self) -> TipRequestV {
        TipRequestV {
            to: self.to@,
            amount: self.amount@,
            message: self.message@,
            token: match self.token {
                Some(t) => Some(t@),
                None => None,
            },
        }
    }
}

/// What one HTTP round trip came to: either a response, with its status
/// code and full body, or a transport failure with its diagnostic text.
#[derive(Debug)]
pub enum HttpOutcome {
    Response { status: u16, body: String },
    TransportFailure { detail: String },
}

pub enum HttpOutcomeV {
    Response { status: u16, body: Seq<char> },
    TransportFailure { detail: Seq<char> },
}

impl View for HttpOutcome {
    type V = HttpOutcomeV;

    open spec fn view(&self) -> HttpOutcomeV {
        match self {
            HttpOutcome::Response { status, body } => HttpOutcomeV::Response {
                status: *status,
                body: body@,
            },
            HttpOutcome::TransportFailure { detail } => HttpOutcomeV::TransportFailure {
                detail: detail@,
            },
        }
    }
}

/// A status in the 2xx range counts as success, as the remote service
/// and the underlying HTTP notion of success agree.
pub open spec fn is_success_status(status: u16) -> bool {
    200 <= status < 300
}

} // verus!
