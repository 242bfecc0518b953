use mcdevkit::plugins::CopyPlan;
use mcdevkit::plugins::PathKind;
use mcdevkit::plugins::PluginInput;
use mcdevkit::plugins::file_base_name;
use mcdevkit::plugins::plan_plugin_copies;
use mcdevkit::plugins::plugin_destination;
use mcdevkit::server::Software;
use mcdevkit::workspace::eula_contents;
use mcdevkit::workspace::eula_file_name;
use mcdevkit::workspace::generate_random_uuid;
use mcdevkit::workspace::select_temp_root;
use mcdevkit::workspace::workspace_dir_name;
use mcdevkit::workspace::workspace_parent;
use mcdevkit::workspace::workspace_path;

#[test]
fn random_suffix_is_eight_alphanumeric_characters() {
    let suffix = generate_random_uuid();
    assert_eq!(suffix.chars().count(), 8);
    for c in suffix.chars() {
        assert!(c.is_ascii_alphanumeric());
    }
}

#[test]
fn workspace_name_combines_software_version_and_suffix() {
    let name = workspace_dir_name(
        Software::Paper,
        &String::from("1.20.1"),
        &String::from("Ab3dEf9h"),
    );
    assert_eq!(name, String::from("Paper:1.20.1-Ab3dEf9h"));
}

#[test]
fn generated_workspaces_share_one_parent_folder() {
    let root = String::from("/var/tmp");
    assert_eq!(workspace_parent(&root), String::from("/var/tmp/mcdevkit"));
    let name = workspace_dir_name(
        Software::Paper,
        &String::from("1.20"),
        &String::from("00000000"),
    );
    assert_eq!(
        workspace_path(&root, &name),
        String::from("/var/tmp/mcdevkit/Paper:1.20-00000000")
    );
}

#[test]
fn two_generated_names_with_distinct_suffixes_differ() {
    let version = String::from("1.20.1");
    let first = workspace_dir_name(Software::Paper, &version, &String::from("aaaaaaaa"));
    let second = workspace_dir_name(Software::Paper, &version, &String::from("aaaaaaab"));
    assert_ne!(first, second);
}

#[test]
fn shared_temp_root_is_used_only_when_writable() {
    assert_eq!(select_temp_root(true), Some(String::from("/var/tmp")));
    assert_eq!(select_temp_root(false), None);
}

#[test]
fn acceptance_marker_has_fixed_name_and_token() {
    assert_eq!(eula_file_name(), String::from("eula.txt"));
    assert_eq!(eula_contents(), String::from("eula=true"));
}

#[test]
fn base_name_takes_the_last_component() {
    assert_eq!(
        file_base_name("plugins/validFile.jar"),
        Some(String::from("validFile.jar"))
    );
    assert_eq!(
        file_base_name("/a/b/c/worldedit.jar"),
        Some(String::from("worldedit.jar"))
    );
    assert_eq!(file_base_name("plain.jar"), Some(String::from("plain.jar")));
}

#[test]
fn base_name_rejects_separators_and_parent_components() {
    assert_eq!(file_base_name(""), None);
    assert_eq!(file_base_name("dir/"), None);
    assert_eq!(file_base_name("."), None);
    assert_eq!(file_base_name(".."), None);
    assert_eq!(file_base_name("a/.."), None);
    assert_eq!(file_base_name("a/."), None);
}

#[test]
fn destination_joins_folder_and_base_name() {
    assert_eq!(
        plugin_destination(&String::from("/ws/plugins"), &String::from("a.jar")),
        String::from("/ws/plugins/a.jar")
    );
}

#[test]
fn copy_plan_copies_exactly_the_regular_files() {
    let inputs = vec![
        PluginInput {
            path: String::from("validFile.jar"),
            kind: PathKind::File,
        },
        PluginInput {
            path: String::from("missing.jar"),
            kind: PathKind::Missing,
        },
        PluginInput {
            path: String::from("aDirectory"),
            kind: PathKind::Directory,
        },
    ];
    let CopyPlan { copies, skipped } =
        plan_plugin_copies(&inputs, PathKind::Directory).unwrap();
    assert_eq!(copies, vec![String::from("validFile.jar")]);
    assert_eq!(
        skipped,
        vec![String::from("missing.jar"), String::from("aDirectory")]
    );
}

#[test]
fn copy_plan_needs_an_existing_directory_as_destination() {
    let inputs = vec![PluginInput {
        path: String::from("validFile.jar"),
        kind: PathKind::File,
    }];
    assert!(plan_plugin_copies(&inputs, PathKind::Missing).is_none());
    assert!(plan_plugin_copies(&inputs, PathKind::File).is_none());
}
