use rsfs::{DirBuilder, DirConfig, OpenConfig, OpenOptions, FS};

#[test]
fn fresh_open_options_have_no_flags() {
    let c = FS.new_openopts().config();
    assert!(!c.read && !c.write && !c.append && !c.truncate && !c.create && !c.create_new);
    assert_eq!(c.mode, None);
}

#[test]
fn fresh_dir_builder_is_not_recursive() {
    let c = FS.new_dirbuilder().config();
    assert_eq!(c, DirConfig { recursive: false, mode: None });
}

#[test]
fn open_options_chain_sets_each_flag() {
    let mut o = OpenOptions::new();
    o.read(true).write(true).append(true).truncate(true).create(true).create_new(true).mode(0o640);
    assert_eq!(
        o.config(),
        OpenConfig {
            read: true,
            write: true,
            append: true,
            truncate: true,
            create: true,
            create_new: true,
            mode: Some(0o640),
        }
    );
}

#[test]
fn open_options_later_setting_wins() {
    let mut o = OpenOptions::new();
    o.write(true).create(true).write(false).mode(0o600).mode(0o644);
    let c = o.config();
    assert!(!c.write);
    assert!(c.create);
    assert_eq!(c.mode, Some(0o644));
}

#[test]
fn open_options_set_twice_is_set_once() {
    let mut twice = FS.new_openopts();
    twice.read(true).read(true).create_new(true).create_new(true).mode(0o600).mode(0o600);
    let mut once = FS.new_openopts();
    once.read(true).create_new(true).mode(0o600);
    assert_eq!(twice.config(), once.config());
}

#[test]
fn dir_builder_set_twice_is_set_once() {
    let mut twice = DirBuilder::new();
    twice.recursive(true).recursive(true).mode(0o755).mode(0o755);
    let mut once = DirBuilder::new();
    once.recursive(true).mode(0o755);
    assert_eq!(twice.config(), once.config());
    assert_eq!(once.config(), DirConfig { recursive: true, mode: Some(0o755) });
}

#[test]
fn dir_builder_recursive_can_be_unset() {
    let mut d = FS.new_dirbuilder();
    d.recursive(true).recursive(false);
    assert_eq!(d.config(), DirConfig { recursive: false, mode: None });
}

#[test]
fn open_options_setter_changes_only_its_flag() {
    let mut o = OpenOptions::new();
    o.append(true);
    let c = o.config();
    assert!(c.append);
    assert!(!c.read && !c.write && !c.truncate && !c.create && !c.create_new);
    assert_eq!(c.mode, None);
}
