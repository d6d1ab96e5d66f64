//! The image host: what it is sent and how its answers become public URLs.

use vstd::prelude::*;
use crate::constants::{FILE_URL_PREFIX, UPLOAD_FAILED_MSG};

verus! {

/// An image host, known by its base URL.
#[derive(Clone, Debug, PartialEq)]
pub struct ImgPush {
    url: String,
}

/// How the image host answered an upload.
#[derive(Clone, Debug, PartialEq)]
pub enum HostReply {
    /// The request did not get through, or the host answered with an error
    /// status. `reason` is the transport's account of it.
    Failed { reason: String },
    /// The host answered with success. `filename` is the name it gave the
    /// image, `None` where the answer could not be read.
    Answered { filename: Option<String> },
}

pub enum HostReplyView {
    Failed { reason: Seq<char> },
    Answered { filename: Option<Seq<char>> },
}

impl DeepView for HostReply {
    type V = HostReplyView;

    open spec fn deep_view(&self) -> HostReplyView {
        match self {
            HostReply::Failed { reason } => HostReplyView::Failed { reason: reason@ },
            HostReply::Answered { filename } => HostReplyView::Answered {
                filename: filename.deep_view(),
            },
        }
    }
}

/// Where the chat transport serves a file: the bot's token and the file's
/// path behind the transport's download address.
pub open spec fn file_url(token: Seq<char>, path: Seq<char>) -> Seq<char> {
    FILE_URL_PREFIX@ + token + seq!['/'] + path
}

/// What an upload comes to: the image's public URL, which is the host's
/// base URL, a slash and the file name; or why there is none.
pub open spec fn upload_result(base_url: Seq<char>, reply: HostReplyView) -> Result<
    Seq<char>,
    Seq<char>,
> {
    match reply {
        HostReplyView::Failed { reason } => Err(reason),
        HostReplyView::Answered { filename: Some(name) } => Ok(base_url + seq!['/'] + name),
        HostReplyView::Answered { filename: None } => Err(UPLOAD_FAILED_MSG@),
    }
}

/// The URL from which the image host can fetch a file of the chat
/// transport.
pub fn source_url(token: &str, path: &str) -> (url: String)
    ensures
        url@ == file_url(token@, path@),
{
    proof {
        reveal_strlit("/");
        assert("/"@ =~= seq!['/']);
    }
    String::from_str(FILE_URL_PREFIX).concat(token).concat("/").concat(path)
}

impl ImgPush {
    /// The base URL that this host was made with.
    pub closed spec fn base_url(&self) -> Seq<char> {
        self.url@
    }

    pub fn new(url: String) -> (host: Self)
        ensures
            host.base_url() == url@,
    {
        ImgPush { url }
    }

    /// The address to post uploads to.
    pub fn url(&self) -> (url: &str)
        ensures
            url@ == self.base_url(),
    {
        self.url.as_str()
    }

    /// Reads the host's answer to an upload.
    pub fn upload(&self, reply: HostReply) -> (outcome: Result<String, String>)
        ensures
            match outcome {
                Ok(url) => upload_result(self.base_url(), reply.deep_view()) == Ok::<
                    Seq<char>,
                    Seq<char>,
                >(url@),
                Err(reason) => upload_result(self.base_url(), reply.deep_view()) == Err::<
                    Seq<char>,
                    Seq<char>,
                >(reason@),
            },
    {
        match reply {
            HostReply::Failed { reason } => Err(reason),
            HostReply::Answered { filename: Some(name) } => {
                proof {
                    reveal_strlit("/");
                    assert("/"@ =~= seq!['/']);
                }
                Ok(self.url.clone().concat("/").concat(name.as_str()))
            },
            HostReply::Answered { filename: None } => Err(String::from_str(UPLOAD_FAILED_MSG)),
        }
    }
}

} // verus!
