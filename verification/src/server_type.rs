//! The kinds of servers a share can be reached through, and the names
//! by which they appear in URLs, in configuration and in the interface.

use vstd::prelude::*;
use crate::text::{concat, str_eq};

verus! {

/// A protocol through which a share is served.
#[derive(PartialEq, Eq, Structural, Clone, Copy, Debug)]
pub enum ServerType {
    Http,
    Webdav,
    S3,
    Ftp,
    Sftp,
}

/// The first path segment of a share's URL for this server type
/// (`/s/<id>/`, `/webdav/<id>/`, ...); also its serialized form.
pub open spec fn spec_url_segment(t: ServerType) -> Seq<char> {
    match t {
        ServerType::Http => "s"@,
        ServerType::Webdav => "webdav"@,
        ServerType::S3 => "s3"@,
        ServerType::Ftp => "ftp"@,
        ServerType::Sftp => "sftp"@,
    }
}

/// The lowercase protocol name of this server type.
pub open spec fn spec_protocol_name(t: ServerType) -> Seq<char> {
    match t {
        ServerType::Http => "http"@,
        ServerType::Webdav => "webdav"@,
        ServerType::S3 => "s3"@,
        ServerType::Ftp => "ftp"@,
        ServerType::Sftp => "sftp"@,
    }
}

/// The name shown to people for this server type.
pub open spec fn spec_display_name(t: ServerType) -> Seq<char> {
    match t {
        ServerType::Http => "Web"@,
        ServerType::Webdav => "WebDAV"@,
        ServerType::S3 => "S3"@,
        ServerType::Ftp => "FTP"@,
        ServerType::Sftp => "SFTP"@,
    }
}

/// The server type whose URL segment is `s`, if any.
pub open spec fn spec_from_url_segment(s: Seq<char>) -> Option<ServerType> {
    if s == "s"@ {
        Some(ServerType::Http)
    } else if s == "webdav"@ {
        Some(ServerType::Webdav)
    } else if s == "s3"@ {
        Some(ServerType::S3)
    } else if s == "ftp"@ {
        Some(ServerType::Ftp)
    } else if s == "sftp"@ {
        Some(ServerType::Sftp)
    } else {
        None
    }
}

/// Every server type, in declaration order.
pub open spec fn spec_all_server_types() -> Seq<ServerType> {
    seq![ServerType::Http, ServerType::Webdav, ServerType::S3, ServerType::Ftp, ServerType::Sftp]
}

impl ServerType {
    pub fn to_url_segment(&self) -> (r: &'static str)
        ensures
            r@ == spec_url_segment(*self),
    {
        match self {
            ServerType::Http => "s",
            ServerType::Webdav => "webdav",
            ServerType::S3 => "s3",
            ServerType::Ftp => "ftp",
            ServerType::Sftp => "sftp",
        }
    }

    pub fn to_str(&self) -> (r: &'static str)
        ensures
            r@ == spec_protocol_name(*self),
    {
        match self {
            ServerType::Http => "http",
            ServerType::Webdav => "webdav",
            ServerType::S3 => "s3",
            ServerType::Ftp => "ftp",
            ServerType::Sftp => "sftp",
        }
    }

    /// The name shown to people for this server type.
    pub fn display_name(&self) -> (r: &'static str)
        ensures
            r@ == spec_display_name(*self),
    {
        match self {
            ServerType::Http => "Web",
            ServerType::Webdav => "WebDAV",
            ServerType::S3 => "S3",
            ServerType::Ftp => "FTP",
            ServerType::Sftp => "SFTP",
        }
    }

    /// Reads a server type from its URL segment (the serialized form);
    /// any other text is refused with `Unknown server type: <text>`.
    pub fn from_url_segment(s: &str) -> (r: Result<ServerType, String>)
        ensures
            match r {
                Ok(t) => spec_from_url_segment(s@) == Some(t),
                Err(msg) => spec_from_url_segment(s@) is None && msg@ == "Unknown server type: "@ + s@,
            },
    {
        if str_eq(s, "s") {
            Ok(ServerType::Http)
        } else if str_eq(s, "webdav") {
            Ok(ServerType::Webdav)
        } else if str_eq(s, "s3") {
            Ok(ServerType::S3)
        } else if str_eq(s, "ftp") {
            Ok(ServerType::Ftp)
        } else if str_eq(s, "sftp") {
            Ok(ServerType::Sftp)
        } else {
            Err(concat("Unknown server type: ", s))
        }
    }

    /// Every server type, in declaration order.
    pub fn all() -> (v: Vec<ServerType>)
        ensures
            v@ == spec_all_server_types(),
    {
        let v = vec![ServerType::Http, ServerType::Webdav, ServerType::S3, ServerType::Ftp, ServerType::Sftp];
        assert(v@ == spec_all_server_types());
        v
    }
}

impl Default for ServerType {
    /// Shares are served over the web interface unless chosen otherwise.
    fn default() -> (t: ServerType)
        ensures
            t == ServerType::Http,
    {
        ServerType::Http
    }
}

/// Reading the URL segment of a server type gives that server type back:
/// serializing and then deserializing a server type is the identity.
pub proof fn lemma_url_segment_round_trip(t: ServerType)
    ensures
        spec_from_url_segment(spec_url_segment(t)) == Some(t),
{
    lemma_literal_facts();
}

/// Different server types have different URL segments, protocol names and
/// display names.
pub proof fn lemma_names_distinct(a: ServerType, b: ServerType)
    requires
        a != b,
    ensures
        spec_url_segment(a) != spec_url_segment(b),
        spec_protocol_name(a) != spec_protocol_name(b),
        spec_display_name(a) != spec_display_name(b),
{
    lemma_literal_facts();
}

/// The lengths and first characters that tell the names apart.
proof fn lemma_literal_facts()
    ensures
        "s"@.len() == 1,
        "webdav"@.len() == 6,
        "s3"@.len() == 2,
        "ftp"@.len() == 3,
        "sftp"@.len() == 4,
        "http"@.len() == 4,
        "http"@[0] == 'h',
        "sftp"@[0] == 's',
        "Web"@.len() == 3,
        "WebDAV"@.len() == 6,
        "S3"@.len() == 2,
        "FTP"@.len() == 3,
        "SFTP"@.len() == 4,
        "Web"@[0] == 'W',
        "FTP"@[0] == 'F',
{
    reveal_strlit("s");
    reveal_strlit("webdav");
    reveal_strlit("s3");
    reveal_strlit("ftp");
    reveal_strlit("sftp");
    reveal_strlit("http");
    reveal_strlit("Web");
    reveal_strlit("WebDAV");
    reveal_strlit("S3");
    reveal_strlit("FTP");
    reveal_strlit("SFTP");
}

/// Every server type occurs exactly once among all server types.
pub proof fn lemma_all_lists_each_once(t: ServerType)
    ensures
        spec_all_server_types().contains(t),
        forall|i: int, j: int|
            0 <= i < j < 5 ==> spec_all_server_types()[i] != spec_all_server_types()[j],
{
    let all = spec_all_server_types();
    match t {
        ServerType::Http => assert(all[0] == t),
        ServerType::Webdav => assert(all[1] == t),
        ServerType::S3 => assert(all[2] == t),
        ServerType::Ftp => assert(all[3] == t),
        ServerType::Sftp => assert(all[4] == t),
    }
}

} // verus!
