use filen_relay::access::{
    authorize_removal, can_see, require_admin, visible_shares, AccessError, User,
};
use filen_relay::deploy::{
    console_url, deployed_message, generate_resource_name, namespace_wait_step, registry_image,
    scaleway_regions, ContainerSettings, NamespaceChoice, WaitStep,
};
use filen_relay::once_lock::UnwrapOnceLock;
use filen_relay::path_walk::{DirEntry, FileEntry, PathWalk, WalkError, WalkStep};
use filen_relay::root_check::{
    normalize_root_path, RootCheck, RootEvent, RootQuery, ShareRootType,
};
use filen_relay::api::{
    allowed_users_check, db_failure_message, db_outcome, removal_check, share_to_add,
    shares_answer, DbOperation,
};
use filen_relay::deploy::{selection_is_known, DeployAction, DeployEvent, DeployPhase, Deployment};
use filen_relay::root_check::CheckedShareRoot;
use filen_relay::server::{
    admin_email_result, forwarded_answer, logout_answer, no_share_id_answer, share_route_action,
    trailing_slash_redirect, ForwardedAnswer, RouteAction, SharePath,
};
use filen_relay::server_type::ServerType;
use filen_relay::share::{Share, ShareId};
use filen_relay::startup::{
    choose_db_source, parse_port, port_from_env_value, DbSource, StartupArgs, DEFAULT_PORT,
};

fn s(x: &str) -> String {
    x.to_string()
}

fn is_lower_hex(c: char) -> bool {
    c.is_ascii_digit() || ('a'..='f').contains(&c)
}

// ---------- server types ----------

#[test]
fn server_type_names() {
    let expected = [
        (ServerType::Http, "s", "http", "Web"),
        (ServerType::Webdav, "webdav", "webdav", "WebDAV"),
        (ServerType::S3, "s3", "s3", "S3"),
        (ServerType::Ftp, "ftp", "ftp", "FTP"),
        (ServerType::Sftp, "sftp", "sftp", "SFTP"),
    ];
    for (t, segment, protocol, display) in expected {
        assert_eq!(t.to_url_segment(), segment);
        assert_eq!(t.to_str(), protocol);
        assert_eq!(t.display_name(), display);
    }
}

#[test]
fn server_type_url_segment_round_trip() {
    for t in ServerType::all() {
        assert_eq!(ServerType::from_url_segment(t.to_url_segment()), Ok(t));
    }
}

#[test]
fn server_type_unknown_segment() {
    assert_eq!(
        ServerType::from_url_segment("http"),
        Err(s("Unknown server type: http"))
    );
    assert_eq!(
        ServerType::from_url_segment(""),
        Err(s("Unknown server type: "))
    );
    assert_eq!(
        ServerType::from_url_segment("WebDAV"),
        Err(s("Unknown server type: WebDAV"))
    );
}

#[test]
fn server_type_all_and_default() {
    assert_eq!(
        ServerType::all(),
        vec![
            ServerType::Http,
            ServerType::Webdav,
            ServerType::S3,
            ServerType::Ftp,
            ServerType::Sftp
        ]
    );
    assert_eq!(ServerType::default(), ServerType::Http);
}

// ---------- share identifiers ----------

#[test]
fn new_share_id_is_hyphenated_v4() {
    let id = ShareId::new();
    let text: Vec<char> = id.as_str().chars().collect();
    assert_eq!(text.len(), 36);
    for (i, c) in text.iter().enumerate() {
        if [8, 13, 18, 23].contains(&i) {
            assert_eq!(*c, '-');
        } else {
            assert!(is_lower_hex(*c));
        }
    }
    assert_eq!(text[14], '4');
    assert!(['8', '9', 'a', 'b'].contains(&text[19]));
}

#[test]
fn new_share_ids_differ() {
    let a = ShareId::new();
    let b = ShareId::new();
    assert!(a != b);
}

#[test]
fn short_form_of_new_id_is_first_eight_digits() {
    let id = ShareId::new();
    let short = id.short();
    assert_eq!(short.len(), 8);
    assert_eq!(short, &id.as_str()[..8]);
}

#[test]
fn short_form_stops_at_first_hyphen() {
    let id = ShareId::from(s("abc-def-ghi"));
    assert_eq!(id.short(), "abc");
    let id = ShareId::from(s("-x"));
    assert_eq!(id.short(), "");
    let id = ShareId::from(s("é€-z"));
    assert_eq!(id.short(), "é€");
}

#[test]
fn share_id_from_text_keeps_text() {
    let id = ShareId::from(s("67e55044-10b1-426f-9247-bb680e5fe0c8"));
    assert_eq!(id.as_str(), "67e55044-10b1-426f-9247-bb680e5fe0c8");
    assert!(id == ShareId::from(s("67e55044-10b1-426f-9247-bb680e5fe0c8")));
    assert!(id != ShareId::from(s("67e55044")));
}

#[test]
fn share_create_sets_fields() {
    let share = Share::create(s("/docs"), true, Some(s("pw")), s("a@x.io"), s("{}"));
    assert_eq!(share.root, "/docs");
    assert!(share.read_only);
    assert_eq!(share.password, Some(s("pw")));
    assert_eq!(share.filen_email, "a@x.io");
    assert_eq!(share.filen_stringified_client, "{}");
    assert_eq!(share.id.as_str().len(), 36);
}

// ---------- once lock ----------

#[test]
fn once_lock_first_init_wins() {
    let mut lock: UnwrapOnceLock<u32> = UnwrapOnceLock::new();
    assert!(!lock.is_initialized());
    assert_eq!(lock.try_get(), None);
    lock.init(7);
    assert!(lock.is_initialized());
    assert_eq!(*lock.get(), 7);
    lock.init(9);
    assert_eq!(*lock.get(), 7);
    assert_eq!(lock.try_get(), Some(&7));
}

// ---------- path walk ----------

fn dir(uuid: &str, parent: Option<&str>, name: Option<&str>) -> DirEntry {
    DirEntry {
        uuid: s(uuid),
        parent: parent.map(s),
        name: name.map(s),
    }
}

fn done(step: WalkStep) -> String {
    match step {
        WalkStep::Done(p) => p,
        other => panic!("expected a path, got {:?}", other),
    }
}

#[test]
fn walk_root_dir_has_empty_path() {
    let (_, step) = PathWalk::for_dir("root", dir("root", None, Some("r")));
    assert_eq!(done(step), "");
}

#[test]
fn walk_dir_below_root() {
    let (_, step) = PathWalk::for_dir("root", dir("d1", Some("root"), Some("docs")));
    assert_eq!(done(step), "/docs");
}

#[test]
fn walk_nested_dir_fetches_parents() {
    let (mut walk, step) = PathWalk::for_dir("root", dir("d3", Some("d2"), Some("c")));
    match step {
        WalkStep::FetchParent(p) => assert_eq!(p, "d2"),
        other => panic!("unexpected {:?}", other),
    }
    let step = walk.step(dir("d2", Some("d1"), None));
    match step {
        WalkStep::FetchParent(p) => assert_eq!(p, "d1"),
        other => panic!("unexpected {:?}", other),
    }
    let step = walk.step(dir("d1", Some("root"), Some("a")));
    assert_eq!(done(step), "/a/INVALID_NAME/c");
}

#[test]
fn walk_fetched_root_ends_walk() {
    let (mut walk, _) = PathWalk::for_dir("root", dir("d2", Some("d1"), Some("b")));
    let step = walk.step(dir("root", Some("elsewhere"), Some("ignored")));
    assert_eq!(done(step), "/b");
}

#[test]
fn walk_dir_outside_file_tree_fails() {
    let (_, step) = PathWalk::for_dir("root", dir("d1", None, Some("x")));
    match step {
        WalkStep::Failed(e) => {
            assert_eq!(e, WalkError::DirNotInFileTree);
            assert_eq!(
                e.message(),
                "Failed to get parent UUID for directory not inside regular file tree"
            );
        }
        other => panic!("unexpected {:?}", other),
    }
}

#[test]
fn walk_file_paths() {
    let (mut walk, step) = PathWalk::for_file(
        "root",
        FileEntry {
            parent: Some(s("root")),
            name: Some(s("f.txt")),
        },
    );
    match step {
        WalkStep::FetchParent(p) => assert_eq!(p, "root"),
        other => panic!("unexpected {:?}", other),
    }
    let step = walk.step(dir("root", None, None));
    assert_eq!(done(step), "/f.txt");

    let (_, step) = PathWalk::for_file(
        "root",
        FileEntry {
            parent: None,
            name: Some(s("f.txt")),
        },
    );
    match step {
        WalkStep::Failed(e) => {
            assert_eq!(e, WalkError::FileNotInFileTree);
            assert_eq!(
                e.message(),
                "Failed to get parent UUID for file not inside regular file tree"
            );
        }
        other => panic!("unexpected {:?}", other),
    }
}

// ---------- root check ----------

#[test]
fn normalize_root_paths() {
    assert_eq!(normalize_root_path("//a/b//"), "/a/b");
    assert_eq!(normalize_root_path("a"), "/a");
    assert_eq!(normalize_root_path(""), "/");
    assert_eq!(normalize_root_path("///"), "/");
    assert_eq!(normalize_root_path("/x//y/"), "/x//y");
    let once = normalize_root_path("/photos/2024/");
    assert_eq!(normalize_root_path(&once), once);
}

#[test]
fn root_query_by_uuid() {
    match RootQuery::of("550e8400-e29b-41d4-a716-446655440000") {
        RootQuery::ById(n) => assert_eq!(n, 0x550e8400_e29b_41d4_a716_446655440000),
        other => panic!("unexpected {:?}", other),
    }
    match RootQuery::of("550E8400E29B41D4A716446655440000") {
        RootQuery::ById(n) => assert_eq!(n, 0x550e8400_e29b_41d4_a716_446655440000),
        other => panic!("unexpected {:?}", other),
    }
}

#[test]
fn root_query_by_path() {
    match RootQuery::of("/Documents/") {
        RootQuery::ByPath(p) => assert_eq!(p, "/Documents"),
        other => panic!("unexpected {:?}", other),
    }
    match RootQuery::decide("x/", None) {
        RootQuery::ByPath(p) => assert_eq!(p, "/x"),
        other => panic!("unexpected {:?}", other),
    }
    match RootQuery::decide("anything", Some(5)) {
        RootQuery::ById(n) => assert_eq!(n, 5),
        other => panic!("unexpected {:?}", other),
    }
}

fn finish(check: RootCheck) -> Result<(String, ShareRootType), String> {
    assert!(check.is_finished());
    check
        .into_result()
        .map(|c| (c.path, c.item_type))
}

#[test]
fn root_check_uuid_dir_then_file() {
    let check = RootCheck::start(RootQuery::ById(1));
    assert!(!check.is_finished());
    let check = check.advance(RootEvent::DirResolved(s("/a")));
    assert_eq!(finish(check), Ok((s("/a"), ShareRootType::Dir)));

    let check = RootCheck::start(RootQuery::ById(1));
    let check = check.advance(RootEvent::DirMissing(s("no dir")));
    assert!(!check.is_finished());
    let check = check.advance(RootEvent::FileResolved(s("/a/f")));
    assert_eq!(finish(check), Ok((s("/a/f"), ShareRootType::File)));

    let check = RootCheck::start(RootQuery::ById(1));
    let check = check.advance(RootEvent::DirMissing(s("e1")));
    let check = check.advance(RootEvent::FileMissing(s("e2")));
    assert_eq!(
        finish(check),
        Err(s(
            "Failed to find dir (e1), also failed to find file (e2), for provided UUID"
        ))
    );
}

#[test]
fn root_check_paths() {
    for kind in [ShareRootType::Root, ShareRootType::File, ShareRootType::Dir] {
        let check = RootCheck::start(RootQuery::ByPath(s("/p")));
        let check = check.advance(RootEvent::PathItem(Some(kind)));
        assert_eq!(finish(check), Ok((s("/p"), kind)));
    }
    let check = RootCheck::start(RootQuery::ByPath(s("/p")));
    let check = check.advance(RootEvent::PathItem(None));
    assert_eq!(finish(check), Err(s("No item found at provided path")));

    let check = RootCheck::start(RootQuery::ByPath(s("/p")));
    let check = check.advance(RootEvent::PathLookupFailed(s("boom")));
    assert_eq!(
        finish(check),
        Err(s("Failed to find dir at path (boom), also failed to find file at path (boom), for provided path"))
    );
}

// ---------- access ----------

fn share_of(email: &str, id: &str) -> Share {
    Share {
        id: ShareId::from(s(id)),
        root: s("/"),
        read_only: false,
        password: None,
        filen_email: s(email),
        filen_stringified_client: s(""),
    }
}

fn shares() -> Vec<Share> {
    vec![
        share_of("a@x.io", "1"),
        share_of("b@x.io", "2"),
        share_of("a@x.io", "3"),
    ]
}

fn ids(v: &[Share]) -> Vec<String> {
    v.iter().map(|s| s.id.as_str().to_string()).collect()
}

#[test]
fn users_see_their_own_shares() {
    let user = User {
        email: s("a@x.io"),
        is_admin: false,
    };
    assert_eq!(ids(&visible_shares(shares(), &user)), vec![s("1"), s("3")]);
    let other = User {
        email: s("c@x.io"),
        is_admin: false,
    };
    assert!(visible_shares(shares(), &other).is_empty());
}

#[test]
fn admin_sees_every_share() {
    let admin = User {
        email: s("c@x.io"),
        is_admin: true,
    };
    assert_eq!(ids(&visible_shares(shares(), &admin)), vec![s("1"), s("2"), s("3")]);
    assert!(can_see(&admin, &share_of("z@x.io", "9")));
}

#[test]
fn removal_needs_a_visible_share() {
    let list = shares();
    let user = User {
        email: s("a@x.io"),
        is_admin: false,
    };
    assert_eq!(authorize_removal(&list, &ShareId::from(s("1")), &user), Ok(()));
    let refused = authorize_removal(&list, &ShareId::from(s("2")), &user);
    assert_eq!(refused, Err(AccessError::ShareNotFoundOrUnauthorized));
    assert_eq!(
        AccessError::ShareNotFoundOrUnauthorized.message(),
        "Share not found or unauthorized"
    );
    assert_eq!(
        authorize_removal(&list, &ShareId::from(s("7")), &user),
        Err(AccessError::ShareNotFoundOrUnauthorized)
    );
    let admin = User {
        email: s("c@x.io"),
        is_admin: true,
    };
    assert_eq!(authorize_removal(&list, &ShareId::from(s("2")), &admin), Ok(()));
}

#[test]
fn allowed_users_need_the_admin() {
    let user = User {
        email: s("a@x.io"),
        is_admin: false,
    };
    assert_eq!(require_admin(&user), Err(AccessError::Unauthorized));
    assert_eq!(AccessError::Unauthorized.message(), "Unauthorized");
    let admin = User {
        email: s("a@x.io"),
        is_admin: true,
    };
    assert_eq!(require_admin(&admin), Ok(()));
}

// ---------- startup ----------

fn args(
    email: Option<&str>,
    password: Option<&str>,
    code: Option<&str>,
    config: Option<&str>,
    dir: Option<&str>,
) -> StartupArgs {
    StartupArgs {
        admin_email: email.map(s),
        admin_password: password.map(s),
        admin_2fa_code: code.map(s),
        admin_auth_config: config.map(s),
        db_dir: dir.map(s),
    }
}

#[test]
fn db_source_preference_order() {
    match choose_db_source(args(Some("a"), Some("p"), None, Some("cfg"), Some("/db"))) {
        Some(DbSource::OfflineLocation { admin_email, db_dir }) => {
            assert_eq!(admin_email, "a");
            assert_eq!(db_dir, "/db");
        }
        other => panic!("unexpected {:?}", other),
    }
    match choose_db_source(args(Some("a"), Some("p"), None, Some("cfg"), None)) {
        Some(DbSource::AuthConfig { auth_config }) => assert_eq!(auth_config, "cfg"),
        other => panic!("unexpected {:?}", other),
    }
    match choose_db_source(args(None, None, None, Some("cfg"), Some("/db"))) {
        Some(DbSource::AuthConfig { auth_config }) => assert_eq!(auth_config, "cfg"),
        other => panic!("unexpected {:?}", other),
    }
    match choose_db_source(args(Some("a"), Some("p"), Some("123456"), None, None)) {
        Some(DbSource::Credentials {
            admin_email,
            password,
            two_factor_code,
        }) => {
            assert_eq!(admin_email, "a");
            assert_eq!(password, "p");
            assert_eq!(two_factor_code, Some(s("123456")));
        }
        other => panic!("unexpected {:?}", other),
    }
    assert!(choose_db_source(args(Some("a"), None, None, None, None)).is_none());
    assert!(choose_db_source(args(None, Some("p"), None, None, Some("/db"))).is_none());
}

#[test]
fn port_parsing_matches_std() {
    for text in [
        "8080", "0", "65535", "65536", "+80", "+", "", "-1", "-0", "8o", " 80", "00080",
        "999999999999999999999", "١٢",
    ] {
        assert_eq!(parse_port(text), text.parse::<u16>().ok(), "{:?}", text);
    }
}

#[test]
fn port_from_env() {
    assert_eq!(port_from_env_value("3000"), 3000);
    assert_eq!(port_from_env_value("nope"), 8080);
    assert_eq!(port_from_env_value("70000"), DEFAULT_PORT);
}

// ---------- deployment ----------

#[test]
fn deployment_names_and_urls() {
    let regions = scaleway_regions();
    assert_eq!(
        regions,
        vec![
            ("fr-par", "Paris (fr-par)"),
            ("nl-ams", "Amsterdam (nl-ams)"),
            ("pl-waw", "Warsaw (pl-waw)")
        ]
    );
    assert!(matches!(
        NamespaceChoice::from_selection("create_new"),
        NamespaceChoice::CreateNew
    ));
    match NamespaceChoice::from_selection("ns-1") {
        NamespaceChoice::Existing(id) => assert_eq!(id, "ns-1"),
        other => panic!("unexpected {:?}", other),
    }
    let name = generate_resource_name();
    assert_eq!(name.len(), 20);
    assert!(name.starts_with("filen-relay-"));
    assert!(name[12..].chars().all(is_lower_hex));
    assert_eq!(
        registry_image("1.2.3"),
        "ghcr.io/FilenCloudDienste/filen-relay:1.2.3"
    );
    assert_eq!(
        console_url("fr-par", "ns", "ct"),
        "https://console.scaleway.com/containers/namespaces/fr-par/ns/containers/ct"
    );
    assert_eq!(
        deployed_message("URL", "relay.example"),
        "Deployed Filen Relay to Scaleway!\nView it in the Scaleway Console: URL\nFilen Relay soon available at: https://relay.example"
    );
}

#[test]
fn container_settings() {
    let c = ContainerSettings::for_relay(s("ns"), s("filen-relay-abcdef01"), "0.1.0", s("cfg"));
    assert_eq!(c.namespace_id, "ns");
    assert_eq!(c.name, "filen-relay-abcdef01");
    assert_eq!(c.registry_image, "ghcr.io/FilenCloudDienste/filen-relay:0.1.0");
    assert_eq!((c.min_scale, c.max_scale, c.port), (0, 1, 80));
    assert_eq!((c.cpu_limit, c.memory_limit), (250, 256));
    assert_eq!(c.auth_config_variable, "FILEN_RELAY_ADMIN_AUTH_CONFIG");
    assert_eq!(c.auth_config, "cfg");
    assert_eq!(c.health_check_path, "/api/ready");
    assert_eq!(c.health_check_failure_threshold, 24);
    assert_eq!(c.health_check_interval, "5s");
}

#[test]
fn waiting_for_namespace() {
    assert_eq!(namespace_wait_step("ready", 0), WaitStep::Ready);
    assert_eq!(namespace_wait_step("ready", 1), WaitStep::Ready);
    assert_eq!(namespace_wait_step("pending", 0), WaitStep::Wait);
    assert_eq!(namespace_wait_step("pending", 1), WaitStep::ShowSpinnerAndWait);
    assert_eq!(namespace_wait_step("pending", 2), WaitStep::Wait);
}

// ---------- server answers ----------

#[test]
fn server_answers() {
    let email = s("admin@x.io");
    assert_eq!(admin_email_result(Some(&email)), Ok(s("admin@x.io")));
    assert_eq!(admin_email_result(None), Err(s("Admin email not set")));
    let a = no_share_id_answer();
    assert_eq!((a.status, a.headers.len(), a.body.as_str()), (404, 0, "No share id provided"));
    assert_eq!(trailing_slash_redirect("/webdav/abc"), "/webdav/abc/");
    let l = logout_answer();
    assert_eq!(l.status, 200);
    assert_eq!(l.headers, vec![(s("Set-Cookie"), s("Session=; HttpOnly; Path=/"))]);
    assert_eq!(l.body, "");
}

#[test]
fn share_routes() {
    match share_route_action(SharePath::TypeOnly { segment: s("webdav") }, "/webdav") {
        RouteAction::Answer(a) => {
            assert_eq!(a.status, 404);
            assert_eq!(a.body, "No share id provided");
        }
        other => panic!("unexpected {:?}", other),
    }
    match share_route_action(
        SharePath::WithoutSlash { segment: s("s"), id: s("abc") },
        "/s/abc",
    ) {
        RouteAction::PermanentRedirect(l) => assert_eq!(l, "/s/abc/"),
        other => panic!("unexpected {:?}", other),
    }
    match share_route_action(
        SharePath::WithinShare { segment: s("s3"), id: s("abc") },
        "/s3/abc/x",
    ) {
        RouteAction::Forward(t, id) => {
            assert_eq!(t, ServerType::S3);
            assert_eq!(id, "abc");
        }
        other => panic!("unexpected {:?}", other),
    }
    match share_route_action(SharePath::TypeOnly { segment: s("api") }, "/api") {
        RouteAction::RefuseSegment(m) => assert_eq!(m, "Unknown server type: api"),
        other => panic!("unexpected {:?}", other),
    }
}

#[test]
fn forwarded_answers() {
    match forwarded_answer::<u32>(Ok(7)) {
        ForwardedAnswer::Passed(r) => assert_eq!(r, 7),
        other => panic!("unexpected {:?}", other),
    }
    match forwarded_answer::<u32>(Err(s("timeout"))) {
        ForwardedAnswer::Failed(a) => {
            assert_eq!(a.status, 500);
            assert!(a.headers.is_empty());
            assert_eq!(a.body, "Failed to process request: timeout");
        }
        other => panic!("unexpected {:?}", other),
    }
}

// ---------- endpoints ----------

#[test]
fn db_failure_messages() {
    let cases = [
        (DbOperation::GetShares, "Failed to get shares from database: x"),
        (DbOperation::CreateShare, "Failed to create share: x"),
        (DbOperation::RemoveShare, "Failed to remove share: x"),
        (DbOperation::GetAllowedUsers, "Failed to get allowed users: x"),
        (DbOperation::AddAllowedUser, "Failed to add allowed user: x"),
        (DbOperation::RemoveAllowedUser, "Failed to remove allowed user: x"),
        (DbOperation::ClearAllowedUsers, "Failed to clear allowed users: x"),
    ];
    for (op, expected) in cases {
        assert_eq!(db_failure_message(op, "x"), expected);
        assert_eq!(db_outcome::<()>(op, Err(s("x"))), Err(s(expected)));
    }
    assert_eq!(db_outcome(DbOperation::GetAllowedUsers, Ok(vec![s("u")])), Ok(vec![s("u")]));
}

#[test]
fn endpoint_decisions() {
    let user = User { email: s("a@x.io"), is_admin: false };
    let seen = shares_answer(Ok(shares()), &user).unwrap();
    assert_eq!(ids(&seen), vec![s("1"), s("3")]);
    assert_eq!(
        shares_answer(Err(s("locked")), &user).map(|v| v.len()),
        Err(s("Failed to get shares from database: locked"))
    );
    assert_eq!(removal_check(Ok(shares()), &ShareId::from(s("3")), &user), Ok(()));
    assert_eq!(
        removal_check(Ok(shares()), &ShareId::from(s("2")), &user),
        Err(s("Share not found or unauthorized"))
    );
    assert_eq!(
        removal_check(Err(s("io")), &ShareId::from(s("1")), &user),
        Err(s("Failed to get shares from database: io"))
    );
    assert_eq!(allowed_users_check(&user), Err(s("Unauthorized")));
    let admin = User { email: s("a@x.io"), is_admin: true };
    assert_eq!(allowed_users_check(&admin), Ok(()));
}

#[test]
fn adding_a_share() {
    let checked = CheckedShareRoot { path: s("/docs"), item_type: ShareRootType::Dir };
    let share = share_to_add(Ok(checked), true, None, s("a@x.io"), s("client")).unwrap();
    assert_eq!(share.root, "/docs");
    assert!(share.read_only);
    assert_eq!(share.password, None);
    assert_eq!(share.filen_email, "a@x.io");
    assert_eq!(share.filen_stringified_client, "client");
    assert_eq!(share.id.short().len(), 8);
    let err = share_to_add(Err(s("No item found at provided path")), false, None, s("a"), s("c")).unwrap_err();
    assert_eq!(err.context, "Failed to check root");
    assert_eq!(err.cause, "No item found at provided path");
}

// ---------- deployment flow ----------

#[test]
fn deployment_to_new_namespace() {
    let listed = vec![s("ns-1")];
    assert!(selection_is_known(&listed, "create_new"));
    let (mut d, action) = Deployment::start(&listed, "create_new", "proj", s("fr-par"), s("1.0"), s("cfg"));
    assert_eq!(d.current_phase(), DeployPhase::AwaitNamespaceCreated);
    match action {
        DeployAction::CreateNamespace { name, project_id } => {
            assert!(name.starts_with("filen-relay-"));
            assert_eq!(name.len(), 20);
            assert_eq!(project_id, "proj");
        }
        other => panic!("unexpected {:?}", other),
    }
    match d.advance(DeployEvent::NamespaceCreated(s("ns-new"))) {
        DeployAction::ReadNamespace(id) => assert_eq!(id, "ns-new"),
        other => panic!("unexpected {:?}", other),
    }
    match d.advance(DeployEvent::NamespaceRead(s("pending"))) {
        DeployAction::WaitThenReadNamespace { namespace_id, show_spinner } => {
            assert_eq!(namespace_id, "ns-new");
            assert!(!show_spinner);
        }
        other => panic!("unexpected {:?}", other),
    }
    match d.advance(DeployEvent::NamespaceRead(s("pending"))) {
        DeployAction::WaitThenReadNamespace { show_spinner, .. } => assert!(show_spinner),
        other => panic!("unexpected {:?}", other),
    }
    match d.advance(DeployEvent::NamespaceRead(s("pending"))) {
        DeployAction::WaitThenReadNamespace { show_spinner, .. } => assert!(!show_spinner),
        other => panic!("unexpected {:?}", other),
    }
    match d.advance(DeployEvent::NamespaceRead(s("ready"))) {
        DeployAction::CreateContainer(c) => {
            assert_eq!(c.namespace_id, "ns-new");
            assert!(c.name.starts_with("filen-relay-"));
            assert_eq!(c.registry_image, "ghcr.io/FilenCloudDienste/filen-relay:1.0");
            assert_eq!(c.auth_config, "cfg");
        }
        other => panic!("unexpected {:?}", other),
    }
    match d.advance(DeployEvent::ContainerCreated { id: s("ct"), domain_name: s("relay.example") }) {
        DeployAction::DeployContainer(id) => assert_eq!(id, "ct"),
        other => panic!("unexpected {:?}", other),
    }
    match d.advance(DeployEvent::ContainerDeployed) {
        DeployAction::Finish(m) => assert_eq!(
            m,
            "Deployed Filen Relay to Scaleway!\nView it in the Scaleway Console: https://console.scaleway.com/containers/namespaces/fr-par/ns-new/containers/ct\nFilen Relay soon available at: https://relay.example"
        ),
        other => panic!("unexpected {:?}", other),
    }
    assert_eq!(d.current_phase(), DeployPhase::Done);
}

#[test]
fn deployment_to_existing_namespace() {
    let listed = vec![s("ns-1"), s("ns-2")];
    assert!(selection_is_known(&listed, "ns-2"));
    assert!(!selection_is_known(&listed, "ns-3"));
    let (mut d, action) = Deployment::start(&listed, "ns-2", "proj", s("nl-ams"), s("2.0"), s("cfg"));
    assert_eq!(d.current_phase(), DeployPhase::AwaitNamespaceRead);
    match action {
        DeployAction::ReadNamespace(id) => assert_eq!(id, "ns-2"),
        other => panic!("unexpected {:?}", other),
    }
    match d.advance(DeployEvent::NamespaceRead(s("ready"))) {
        DeployAction::CreateContainer(c) => assert_eq!(c.namespace_id, "ns-2"),
        other => panic!("unexpected {:?}", other),
    }
}
