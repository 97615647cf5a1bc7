use component_cli::frontend::wit_item::{build_iface_href, iface_ref_to_item, WitInterfaceRef, WitItemKind, TypeKind, TypeTag, SigilKind, WitItem};

fn iface(package: &str, interface: Option<&str>, version: Option<&str>, native: bool) -> WitInterfaceRef {
    WitInterfaceRef {
        package: package.into(),
        interface: interface.map(str::to_owned),
        version: version.map(str::to_owned),
        docs: Some("Docs.".into()),
        is_native: native,
    }
}

#[test]
fn interface_links_cover_version_and_name() {
    assert_eq!(
        build_iface_href(&iface("wasi:http", Some("types"), Some("0.2.0"), false)).as_deref(),
        Some("/wasi/http/0.2.0/interface/types")
    );
    assert_eq!(build_iface_href(&iface("wasi:http", None, Some("0.2.0"), false)).as_deref(), Some("/wasi/http/0.2.0"));
    assert_eq!(
        build_iface_href(&iface("wasi:http", Some("types"), None, false)).as_deref(),
        Some("/wasi/http/interface/types")
    );
    assert_eq!(build_iface_href(&iface("wasi:http", None, None, false)).as_deref(), Some("/wasi/http"));
    assert_eq!(build_iface_href(&iface("no-namespace", Some("x"), None, false)), None);
}

#[test]
fn native_interfaces_drop_their_package() {
    let item = iface_ref_to_item(&iface("my:app", Some("api"), Some("1.0.0"), true));
    assert_eq!(item.kind, WitItemKind::Interface);
    assert_eq!(item.name, "api");
    assert_eq!(item.href, "/my/app/1.0.0/interface/api");
    assert_eq!(item.version, "1.0.0");
    assert_eq!(item.docs.as_deref(), Some("Docs."));
    assert!(item.meta.is_empty() && item.meta_title.is_empty() && !item.deprecated && item.id.is_none());
}

#[test]
fn foreign_interfaces_keep_their_package() {
    let item = iface_ref_to_item(&iface("wasi:http", Some("handler"), None, false));
    assert_eq!(item.name, "wasi:http/handler");
    assert_eq!(item.version, "");
    let bare = iface_ref_to_item(&iface("plain", None, None, false));
    assert_eq!(bare.name, "plain");
    assert_eq!(bare.href, "");
}

#[test]
fn type_kinds_map_to_their_tags() {
    assert_eq!(TypeTag::from_kind(&TypeKind::Record), TypeTag::Record);
    assert_eq!(TypeTag::from_kind(&TypeKind::Variant), TypeTag::Variant);
    assert_eq!(TypeTag::from_kind(&TypeKind::Enum), TypeTag::Enum);
    assert_eq!(TypeTag::from_kind(&TypeKind::Flags), TypeTag::Flags);
    assert_eq!(TypeTag::from_kind(&TypeKind::Resource), TypeTag::Resource);
    assert_eq!(TypeTag::from_kind(&TypeKind::Alias), TypeTag::Generic);
}

fn item(kind: WitItemKind, docs: Option<&str>) -> WitItem {
    WitItem {
        kind,
        name: "handler".to_owned(),
        href: "/wasi/http/interface/handler".to_owned(),
        docs: docs.map(str::to_owned),
        version: "0.2.0".to_owned(),
        meta: "stable".to_owned(),
        meta_title: "Stability".to_owned(),
        deprecated: true,
        id: Some("handler".to_owned()),
    }
}

#[test]
fn each_kind_has_its_sigil() {
    assert_eq!(item(WitItemKind::World, None).sigil(), SigilKind::World);
    assert_eq!(item(WitItemKind::Interface, None).sigil(), SigilKind::Iface);
    assert_eq!(item(WitItemKind::Function, None).sigil(), SigilKind::Func);
    assert_eq!(item(WitItemKind::Type(TypeTag::Generic), None).sigil(), SigilKind::Type);
    assert_eq!(item(WitItemKind::Type(TypeTag::Flags), None).sigil(), SigilKind::Flags);
    assert_eq!(item(WitItemKind::Module, None).sigil(), SigilKind::Module);
    assert_eq!(item(WitItemKind::Component, None).sigil(), SigilKind::Component);
}

#[test]
fn dyn_row_copies_the_item() {
    let row = item(WitItemKind::Interface, Some("Handles requests.")).to_dyn_row();
    assert_eq!(row.sigil, SigilKind::Iface);
    assert_eq!(row.name, "handler");
    assert_eq!(row.href, "/wasi/http/interface/handler");
    assert_eq!(row.desc, "Handles requests.");
    assert_eq!(row.version, "0.2.0");
    assert_eq!(row.meta, "stable");
    assert_eq!(row.meta_title, "Stability");
    assert!(row.deprecated);
    assert_eq!(row.id.as_deref(), Some("handler"));
    let bare = item(WitItemKind::World, None).to_dyn_row();
    assert_eq!(bare.desc, "");
}
