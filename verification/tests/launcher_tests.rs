use arcana_launcher::feedback::{Feedback, SendIssueStatus};
use arcana_launcher::file_management::{
    get_data_dir, get_download_name_for_os, get_game_dir, get_os_executable, get_os_working_dir,
    HostOs,
};
use arcana_launcher::product::Product;

#[test]
fn product_all_lists_both_products() {
    let all = Product::all();
    assert_eq!(all.len(), 2);
    assert!(all[0] == Product::ArcanaLauncher);
    assert!(all[1] == Product::TwelveKnightsVigil);
}

#[test]
fn product_display_names() {
    assert_eq!(Product::ArcanaLauncher.display_name(), "Arcana Launcher");
    assert_eq!(Product::TwelveKnightsVigil.display_name(), "Twelve Knights Vigil");
}

#[test]
fn feedback_empty_has_placeholders() {
    let f = Feedback::empty();
    assert!(f.product == Product::TwelveKnightsVigil);
    assert_eq!(f.title, "Untitled");
    assert_eq!(f.description, "Enter a description");
    assert!(f.send_status == SendIssueStatus::NotSent);
}

#[test]
fn data_dir_is_under_local_data() {
    assert_eq!(get_data_dir("/home/u/.local/share"), "/home/u/.local/share/arcana-launcher");
}

#[test]
fn game_dir_is_under_data_dir() {
    let data = get_data_dir("/home/u/.local/share");
    assert_eq!(
        get_game_dir(&data, "twelve-knights-vigil"),
        "/home/u/.local/share/arcana-launcher/twelve-knights-vigil"
    );
}

#[test]
fn download_names_per_os() {
    assert_eq!(get_download_name_for_os(HostOs::Linux), "linux-latest.zip");
    assert_eq!(get_download_name_for_os(HostOs::Windows), "windows-latest.zip");
}

#[test]
fn working_dir_and_executable_per_os() {
    let wd = get_os_working_dir("/data/game", HostOs::Linux);
    assert_eq!(wd, "/data/game/linux-latest");
    assert_eq!(get_os_executable(&wd, "twelve-knights-vigil", HostOs::Linux),
        "/data/game/linux-latest/twelve-knights-vigil");
    let wdw = get_os_working_dir("/data/game", HostOs::Windows);
    assert_eq!(wdw, "/data/game/windows-latest");
    assert_eq!(get_os_executable(&wdw, "twelve-knights-vigil", HostOs::Windows),
        "/data/game/windows-latest/twelve-knights-vigil.exe");
}
