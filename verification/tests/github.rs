use lore_seeker_desktop::github::{
    select_asset, Method, Payload, Release, ReleaseAsset, Repo, Request, Selector,
};

fn asset(name: &str) -> ReleaseAsset {
    ReleaseAsset {
        name: String::from(name),
        browser_download_url: format!("https://example.org/download/{}", name),
    }
}

fn release(id: u64, upload_url: &str) -> Release {
    Release {
        assets: Vec::new(),
        body: String::new(),
        id,
        name: String::new(),
        tag_name: String::new(),
        upload_url: String::from(upload_url),
    }
}

#[test]
fn new_keeps_user_and_name() {
    let repo = Repo::new("fenhl", "lore-seeker-desktop");
    assert_eq!(repo.user, "fenhl");
    assert_eq!(repo.name, "lore-seeker-desktop");
}

#[test]
fn latest_release_asks_the_releases_endpoint() {
    let request = Repo::new("fenhl", "lore-seeker-desktop").latest_release();
    assert_eq!(
        request,
        Request {
            method: Method::Get,
            url: String::from(
                "https://api.github.com/repos/fenhl/lore-seeker-desktop/releases/latest"
            ),
            query: Vec::new(),
            payload: Payload::Empty,
        }
    );
}

#[test]
fn tags_asks_the_tags_endpoint() {
    let request = Repo::new("Cockatrice", "Cockatrice").tags();
    assert_eq!(
        request,
        Request {
            method: Method::Get,
            url: String::from("https://api.github.com/repos/Cockatrice/Cockatrice/tags"),
            query: Vec::new(),
            payload: Payload::Empty,
        }
    );
}

#[test]
fn create_release_posts_a_draft() {
    let request = Repo::new("fenhl", "lore-seeker-desktop").create_release(
        String::from("Lore Seeker Desktop 1.2.0"),
        String::from("v1.2.0"),
        String::from("notes"),
    );
    assert_eq!(
        request,
        Request {
            method: Method::Post,
            url: String::from("https://api.github.com/repos/fenhl/lore-seeker-desktop/releases"),
            query: Vec::new(),
            payload: Payload::NewRelease {
                body: String::from("notes"),
                draft: true,
                name: String::from("Lore Seeker Desktop 1.2.0"),
                tag_name: String::from("v1.2.0"),
            },
        }
    );
}

#[test]
fn publish_release_patches_the_release_by_number() {
    let request =
        Repo::new("fenhl", "lore-seeker-desktop").publish_release(&release(15790321, ""));
    assert_eq!(
        request,
        Request {
            method: Method::Patch,
            url: String::from(
                "https://api.github.com/repos/fenhl/lore-seeker-desktop/releases/15790321"
            ),
            query: Vec::new(),
            payload: Payload::Draft { draft: false },
        }
    );
}

#[test]
fn release_attach_strips_the_placeholder_and_names_the_asset() {
    let target = release(
        7,
        "https://uploads.github.com/repos/fenhl/lore-seeker-desktop/releases/7/assets{?name,label}",
    );
    let request = Repo::new("fenhl", "lore-seeker-desktop").release_attach(
        &target,
        "lore-seeker-windows-64bit.exe",
        "application/vnd.microsoft.portable-executable",
    );
    assert_eq!(
        request,
        Request {
            method: Method::Post,
            url: String::from(
                "https://uploads.github.com/repos/fenhl/lore-seeker-desktop/releases/7/assets"
            ),
            query: vec![(String::from("name"), String::from("lore-seeker-windows-64bit.exe"))],
            payload: Payload::File {
                content_type: String::from("application/vnd.microsoft.portable-executable"),
            },
        }
    );
}

#[test]
fn selector_matches_by_exact_name_or_by_suffix() {
    let exact = Selector::Exact(String::from("lore-seeker-windows-64bit.exe"));
    assert!(exact.matches("lore-seeker-windows-64bit.exe"));
    assert!(!exact.matches("old-lore-seeker-windows-64bit.exe"));
    let suffix = Selector::Suffix(String::from("win64.exe"));
    assert!(suffix.matches("Cockatrice-2.9.0-win64.exe"));
    assert!(!suffix.matches("Cockatrice-2.9.0-win64.exe.sha256"));
}

#[test]
fn select_asset_picks_the_only_match() {
    let assets = vec![asset("a-win32.exe"), asset("a-win64.exe"), asset("a.dmg")];
    let picked = select_asset(&assets, &Selector::Suffix(String::from("win64.exe")));
    assert_eq!(picked, Some(&assets[1]));
}

#[test]
fn select_asset_refuses_no_match() {
    let assets = vec![asset("a-win32.exe"), asset("a.dmg")];
    assert_eq!(select_asset(&assets, &Selector::Suffix(String::from("win64.exe"))), None);
    assert_eq!(select_asset(&Vec::new(), &Selector::Suffix(String::from("win64.exe"))), None);
}

#[test]
fn select_asset_refuses_several_matches() {
    let assets = vec![asset("a-win64.exe"), asset("b-win64.exe")];
    assert_eq!(select_asset(&assets, &Selector::Suffix(String::from("win64.exe"))), None);
    let same = vec![asset("x.exe"), asset("x.exe")];
    assert_eq!(select_asset(&same, &Selector::Exact(String::from("x.exe"))), None);
}
