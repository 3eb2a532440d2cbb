//! Which request goes where, and who may send it.
use vstd::prelude::*;

use crate::text;
use crate::webserver::response;
use crate::webserver::response::{Answer, ContentType};

verus! {

/// The methods that are told apart.
#[derive(Clone, Copy, Debug, PartialEq, Eq, Structural)]
pub enum Method {
    /// GET.
    Get,
    /// POST.
    Post,
    /// Any other.
    Other,
}

/// What is done with a request.
#[derive(Clone, Copy, Debug, PartialEq, Eq, Structural)]
pub enum Route {
    /// Tell about the host.
    ServerInfo,
    /// List the applications.
    AppList,
    /// Give the box art of an application.
    AppAsset,
    /// A step of pairing.
    Pair,
    /// Launch an application.
    Launch,
    /// Resume a session.
    Resume,
    /// End a session.
    Cancel,
    /// Ask for the PIN.
    Pin,
    /// Take the PIN.
    SubmitPin,
    /// There is nothing there.
    Unknown,
}

/// What a path means.
pub open spec fn path_route(https: bool, method: Method, path: Seq<char>) -> Route {
    if method == Method::Get && path == "/serverinfo"@ {
        Route::ServerInfo
    } else if method == Method::Get && path == "/pair"@ {
        Route::Pair
    } else if https && method == Method::Get {
        if path == "/applist"@ {
            Route::AppList
        } else if path == "/appasset"@ {
            Route::AppAsset
        } else if path == "/launch"@ {
            Route::Launch
        } else if path == "/resume"@ {
            Route::Resume
        } else if path == "/cancel"@ {
            Route::Cancel
        } else {
            Route::Unknown
        }
    } else if !https && method == Method::Get && path == "/pin"@ {
        Route::Pin
    } else if !https && method == Method::Post && path == "/submit-pin"@ {
        Route::SubmitPin
    } else {
        Route::Unknown
    }
}

/// What a path means; see [`path_route`].
pub fn route(https: bool, method: Method, path: &str) -> (r: Route)
    ensures
        r == path_route(https, method, path@),
{
    match method {
        Method::Get => {
            if text::same_text(path, "/serverinfo") {
                return Route::ServerInfo;
            }
            if text::same_text(path, "/pair") {
                return Route::Pair;
            }
            if !https {
                return if text::same_text(path, "/pin") {
                    Route::Pin
                } else {
                    Route::Unknown
                };
            }
            if text::same_text(path, "/applist") {
                Route::AppList
            } else if text::same_text(path, "/appasset") {
                Route::AppAsset
            } else if text::same_text(path, "/launch") {
                Route::Launch
            } else if text::same_text(path, "/resume") {
                Route::Resume
            } else if text::same_text(path, "/cancel") {
                Route::Cancel
            } else {
                Route::Unknown
            }
        },
        Method::Post => if !https && text::same_text(path, "/submit-pin") {
            Route::SubmitPin
        } else {
            Route::Unknown
        },
        Method::Other => Route::Unknown,
    }
}

/// Only a paired client may go there.
pub open spec fn is_protected(route: Route) -> bool {
    route == Route::AppList || route == Route::AppAsset || route == Route::Launch || route
        == Route::Resume || route == Route::Cancel
}

/// It is a part of pairing.
pub open spec fn is_pairing(route: Route) -> bool {
    route == Route::Pair || route == Route::Pin || route == Route::SubmitPin
}

/// Only a paired client may go there; see [`is_protected`].
pub fn needs_paired_client(route: Route) -> (r: bool)
    ensures
        r == is_protected(route),
{
    match route {
        Route::AppList | Route::AppAsset | Route::Launch | Route::Resume | Route::Cancel => true,
        _ => false,
    }
}

/// It is a part of pairing; see [`is_pairing`].
pub fn is_pairing_route(route: Route) -> (r: bool)
    ensures
        r == is_pairing(route),
{
    match route {
        Route::Pair | Route::Pin | Route::SubmitPin => true,
        _ => false,
    }
}

/// What is known of the certificate that a client has shown.
#[derive(Clone, Copy, Debug, PartialEq, Eq, Structural)]
pub enum PeerCertificate {
    /// It has shown none.
    Missing,
    /// It has shown one of a paired client.
    Paired,
    /// It has shown one of no paired client.
    Unpaired,
    /// It has shown one, and the paired clients could not be asked for.
    Unchecked,
}

/// Refuses a client that is not known to be paired.
pub fn verify_paired_client(peer: PeerCertificate) -> (r: Option<Answer>)
    ensures
        match peer {
            PeerCertificate::Paired => r is None,
            PeerCertificate::Unpaired => r matches Some(a) && a.says(
                401,
                ContentType::Unset,
                "Client certificate is not from a paired client."@,
            ),
            PeerCertificate::Unchecked => r matches Some(a) && a.refuses(
                "Failed to verify client certificate."@,
            ),
            PeerCertificate::Missing => r matches Some(a) && a.says(
                401,
                ContentType::Unset,
                "No client certificate provided."@,
            ),
        },
{
    match peer {
        PeerCertificate::Paired => None,
        PeerCertificate::Unpaired => Some(
            response::unauthorized("Client certificate is not from a paired client."),
        ),
        PeerCertificate::Unchecked => Some(
            response::bad_request("Failed to verify client certificate.".to_owned()),
        ),
        PeerCertificate::Missing => Some(response::unauthorized("No client certificate provided.")),
    }
}

/// The request may go on.
pub open spec fn may_enter(route: Route, pairing_enabled: bool, peer: PeerCertificate) -> bool {
    &&& route != Route::Unknown
    &&& is_protected(route) ==> peer == PeerCertificate::Paired
    &&& is_pairing(route) ==> pairing_enabled
}

/// Whether a request may go on; else how it is answered.
pub fn refuse_entry(route: Route, pairing_enabled: bool, peer: PeerCertificate) -> (r: Option<Answer>)
    ensures
        r is None <==> may_enter(route, pairing_enabled, peer),
        r matches Some(a) ==> if route == Route::Unknown {
            a.says(404, ContentType::Unset, "NOT FOUND"@)
        } else if is_pairing(route) {
            a.refuses("Pairing is disabled."@)
        } else if peer == PeerCertificate::Unpaired {
            a.says(401, ContentType::Unset, "Client certificate is not from a paired client."@)
        } else if peer == PeerCertificate::Missing {
            a.says(401, ContentType::Unset, "No client certificate provided."@)
        } else {
            a.refuses("Failed to verify client certificate."@)
        },
{
    if let Route::Unknown = route {
        return Some(response::not_found());
    }
    if needs_paired_client(route) {
        return verify_paired_client(peer);
    }
    if is_pairing_route(route) && !pairing_enabled {
        return Some(response::bad_request("Pairing is disabled.".to_owned()));
    }
    None
}

/// Without TLS, and without the certificate of a paired client, nobody lists,
/// launches, resumes or ends anything.
pub proof fn strangers_cannot_launch(
    https: bool,
    method: Method,
    path: Seq<char>,
    pairing_enabled: bool,
    peer: PeerCertificate,
)
    requires
        may_enter(path_route(https, method, path), pairing_enabled, peer),
        is_protected(path_route(https, method, path)),
    ensures
        https,
        peer == PeerCertificate::Paired,
{
}

/// Where pairing is disabled no request of it goes on.
pub proof fn disabled_pairing_is_closed(
    https: bool,
    method: Method,
    path: Seq<char>,
    peer: PeerCertificate,
)
    requires
        is_pairing(path_route(https, method, path)),
    ensures
        !may_enter(path_route(https, method, path), false, peer),
{
}

/// Every path leads to one place, under the one method and over the one kind
/// of connection that it is for.
pub proof fn paths_lead_where_they_say(https: bool, method: Method, path: Seq<char>)
    ensures
        path_route(https, method, path) == Route::ServerInfo <==> method == Method::Get && path
            == "/serverinfo"@,
        path_route(https, method, path) == Route::Pair <==> method == Method::Get && path == "/pair"@,
        path_route(https, method, path) == Route::AppList <==> https && method == Method::Get && path
            == "/applist"@,
        path_route(https, method, path) == Route::AppAsset <==> https && method == Method::Get && path
            == "/appasset"@,
        path_route(https, method, path) == Route::Launch <==> https && method == Method::Get && path
            == "/launch"@,
        path_route(https, method, path) == Route::Resume <==> https && method == Method::Get && path
            == "/resume"@,
        path_route(https, method, path) == Route::Cancel <==> https && method == Method::Get && path
            == "/cancel"@,
        path_route(https, method, path) == Route::Pin <==> !https && method == Method::Get && path
            == "/pin"@,
        path_route(https, method, path) == Route::SubmitPin <==> !https && method == Method::Post && path
            == "/submit-pin"@,
{
    reveal_strlit("/serverinfo");
    reveal_strlit("/pair");
    reveal_strlit("/applist");
    reveal_strlit("/appasset");
    reveal_strlit("/launch");
    reveal_strlit("/resume");
    reveal_strlit("/cancel");
    reveal_strlit("/pin");
    reveal_strlit("/submit-pin");
    assert("/serverinfo"@.len() == 11 && "/pair"@.len() == 5 && "/applist"@.len() == 8);
    assert("/appasset"@.len() == 9 && "/launch"@.len() == 7 && "/resume"@.len() == 7);
    assert("/cancel"@.len() == 7 && "/pin"@.len() == 4 && "/submit-pin"@.len() == 11);
    assert("/launch"@[1] == 'l' && "/resume"@[1] == 'r' && "/cancel"@[1] == 'c');
    assert("/serverinfo"@[2] == 'e' && "/submit-pin"@[2] == 'u');
}

/// Anybody may ask about the host; a client that is paired may do all that
/// paired clients are for; pairing is open to anybody while it is enabled; and
/// nothing else goes on.
pub proof fn the_right_clients_enter(route: Route, pairing_enabled: bool, peer: PeerCertificate)
    ensures
        may_enter(Route::ServerInfo, pairing_enabled, peer),
        may_enter(route, pairing_enabled, peer) <==> match route {
            Route::ServerInfo => true,
            Route::AppList
            | Route::AppAsset
            | Route::Launch
            | Route::Resume
            | Route::Cancel => peer == PeerCertificate::Paired,
            Route::Pair | Route::Pin | Route::SubmitPin => pairing_enabled,
            Route::Unknown => false,
        },
{
}

} // verus!
