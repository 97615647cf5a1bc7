//! WIT items as the package pages list them: worlds, interfaces,
//! functions, types, modules and child components, one row each.
use vstd::prelude::*;

use crate::text::{owned, push_str, split_once, str_split_once};

verus! {

/// A display tag for a type definition.
#[derive(Debug, PartialEq, Eq)]
pub enum TypeTag {
    /// Generic or unknown type.
    Generic,
    Record,
    Variant,
    Enum,
    Flags,
    Resource,
}

/// The kind of WIT item being rendered.
#[derive(Debug, PartialEq, Eq)]
pub enum WitItemKind {
    World,
    Interface,
    Function,
    Type(TypeTag),
    Module,
    Component,
}

/// A single renderable item row.
pub struct WitItem {
    pub kind: WitItemKind,
    /// Display name shown in the row.
    pub name: String,
    /// Link target for the row.
    pub href: String,
    /// Optional first-sentence description shown under the name.
    pub docs: Option<String>,
    /// Inline version badge shown next to the name (empty for none).
    pub version: String,
    /// Right-aligned meta string (e.g. stability).
    pub meta: String,
    /// Title of the meta badge.
    pub meta_title: String,
    /// Whether the row is rendered as deprecated.
    pub deprecated: bool,
    /// Optional HTML id for anchor targeting.
    pub id: Option<String>,
}

/// An interface a component imports or exports, as the registry reports it.
pub struct WitInterfaceRef {
    /// The package, `namespace:name`.
    pub package: String,
    /// The interface within the package, if any.
    pub interface: Option<String>,
    pub version: Option<String>,
    pub docs: Option<String>,
    /// The interface belongs to the component's own package.
    pub is_native: bool,
}

/// The characters of an optional text.
pub open spec fn opt_chars(o: Option<String>) -> Option<Seq<char>> {
    match o {
        Some(s) => Some(s@),
        None => None,
    }
}

/// The page of an interface reference: `/namespace/name`, then the
/// version and `interface/<name>` when known; none when the package has no
/// `:`.
pub open spec fn spec_iface_href(iface: WitInterfaceRef) -> Option<Seq<char>> {
    match split_once(iface.package@, ':') {
        Some((ns, name)) => {
            let base = "/"@ + ns + "/"@ + name;
            let versioned = match iface.version {
                Some(v) => base + "/"@ + v@,
                None => base,
            };
            Some(
                match iface.interface {
                    Some(i) => versioned + "/interface/"@ + i@,
                    None => versioned,
                },
            )
        },
        None => None,
    }
}

/// Build the URL for a WIT interface reference.
pub fn build_iface_href(iface: &WitInterfaceRef) -> (h: Option<String>)
    ensures
        opt_chars(h) == spec_iface_href(*iface),
{
    let (ns, name) = str_split_once(iface.package.as_str(), ':')?;
    let mut h = owned("/");
    push_str(&mut h, ns);
    push_str(&mut h, "/");
    push_str(&mut h, name);
    if let Some(v) = &iface.version {
        push_str(&mut h, "/");
        push_str(&mut h, v.as_str());
    }
    if let Some(i) = &iface.interface {
        push_str(&mut h, "/interface/");
        push_str(&mut h, i.as_str());
    }
    Some(h)
}

/// The name an interface reference is listed under: for one of the
/// component's own package, the interface alone (or the package when
/// there is none); otherwise `package/interface` (or the package).
pub open spec fn spec_iface_name(iface: WitInterfaceRef) -> Seq<char> {
    if iface.is_native {
        match iface.interface {
            Some(i) => i@,
            None => iface.package@,
        }
    } else {
        match iface.interface {
            Some(i) => iface.package@ + "/"@ + i@,
            None => iface.package@,
        }
    }
}

/// The interface row of an interface reference: its listed name, link
/// (empty without one), docs and version (empty without one).
pub fn iface_ref_to_item(iface: &WitInterfaceRef) -> (item: WitItem)
    ensures
        item.kind == WitItemKind::Interface,
        item.name@ == spec_iface_name(*iface),
        item.href@ == match spec_iface_href(*iface) {
            Some(h) => h,
            None => Seq::empty(),
        },
        item.docs == iface.docs,
        item.version@ == match iface.version {
            Some(v) => v@,
            None => Seq::empty(),
        },
        item.meta@.len() == 0,
        item.meta_title@.len() == 0,
        !item.deprecated,
        item.id is None,
{
    let name = if iface.is_native {
        match &iface.interface {
            Some(i) => i.clone(),
            None => iface.package.clone(),
        }
    } else {
        let mut name = iface.package.clone();
        if let Some(i) = &iface.interface {
            push_str(&mut name, "/");
            push_str(&mut name, i.as_str());
        }
        name
    };
    let version = match &iface.version {
        Some(v) => v.clone(),
        None => String::new(),
    };
    let href = match build_iface_href(iface) {
        Some(h) => h,
        None => String::new(),
    };
    let docs = match &iface.docs {
        Some(d) => Some(d.clone()),
        None => None,
    };
    WitItem {
        kind: WitItemKind::Interface,
        name,
        href,
        docs,
        version,
        meta: String::new(),
        meta_title: String::new(),
        deprecated: false,
        id: None,
    }
}

/// The shape of a type definition, as far as its row needs it.
#[derive(Debug, PartialEq, Eq)]
pub enum TypeKind {
    Record,
    Variant,
    Enum,
    Flags,
    Resource,
    /// A name for another type.
    Alias,
}

/// The display tag of each shape of type.
pub open spec fn spec_type_tag(kind: TypeKind) -> TypeTag {
    match kind {
        TypeKind::Record => TypeTag::Record,
        TypeKind::Variant => TypeTag::Variant,
        TypeKind::Enum => TypeTag::Enum,
        TypeKind::Flags => TypeTag::Flags,
        TypeKind::Resource => TypeTag::Resource,
        TypeKind::Alias => TypeTag::Generic,
    }
}

impl TypeTag {
    /// The display tag of a type definition: its own for records,
    /// variants, enums, flags and resources, the generic one for aliases.
    pub fn from_kind(kind: &TypeKind) -> (tag: TypeTag)
        ensures
            tag == spec_type_tag(*kind),
    {
        match kind {
            TypeKind::Record => TypeTag::Record,
            TypeKind::Variant => TypeTag::Variant,
            TypeKind::Enum => TypeTag::Enum,
            TypeKind::Flags => TypeTag::Flags,
            TypeKind::Resource => TypeTag::Resource,
            TypeKind::Alias => TypeTag::Generic,
        }
    }
}

/// Which coloured sigil a row carries.
#[derive(Debug, PartialEq, Eq)]
pub enum SigilKind {
    World,
    Iface,
    Func,
    /// The catch-all type sigil.
    Type,
    Record,
    Variant,
    Enum,
    Flags,
    Resource,
    Module,
    Component,
}

/// The sigil of each kind of item.
pub open spec fn spec_sigil_of(kind: WitItemKind) -> SigilKind {
    match kind {
        WitItemKind::World => SigilKind::World,
        WitItemKind::Interface => SigilKind::Iface,
        WitItemKind::Function => SigilKind::Func,
        WitItemKind::Type(tag) => match tag {
            TypeTag::Generic => SigilKind::Type,
            TypeTag::Record => SigilKind::Record,
            TypeTag::Variant => SigilKind::Variant,
            TypeTag::Enum => SigilKind::Enum,
            TypeTag::Flags => SigilKind::Flags,
            TypeTag::Resource => SigilKind::Resource,
        },
        WitItemKind::Module => SigilKind::Module,
        WitItemKind::Component => SigilKind::Component,
    }
}

/// One row of an item list, ready to draw.
pub struct DynItemRow {
    pub sigil: SigilKind,
    pub name: String,
    pub href: String,
    /// The description under the name (empty for none).
    pub desc: String,
    pub version: String,
    pub meta: String,
    pub meta_title: String,
    pub deprecated: bool,
    pub id: Option<String>,
}

impl WitItem {
    /// The sigil for this item's kind.
    pub fn sigil(&self) -> (k: SigilKind)
        ensures
            k == spec_sigil_of(self.kind),
    {
        match &self.kind {
            WitItemKind::World => SigilKind::World,
            WitItemKind::Interface => SigilKind::Iface,
            WitItemKind::Function => SigilKind::Func,
            WitItemKind::Type(tag) => match tag {
                TypeTag::Generic => SigilKind::Type,
                TypeTag::Record => SigilKind::Record,
                TypeTag::Variant => SigilKind::Variant,
                TypeTag::Enum => SigilKind::Enum,
                TypeTag::Flags => SigilKind::Flags,
                TypeTag::Resource => SigilKind::Resource,
            },
            WitItemKind::Module => SigilKind::Module,
            WitItemKind::Component => SigilKind::Component,
        }
    }

    /// The list row of this item: its sigil, and its fields as they are,
    /// the docs (empty without any) becoming the description.
    pub fn to_dyn_row(&self) -> (row: DynItemRow)
        ensures
            row.sigil == spec_sigil_of(self.kind),
            row.name@ == self.name@,
            row.href@ == self.href@,
            row.desc@ == match self.docs {
                Some(d) => d@,
                None => Seq::empty(),
            },
            row.version@ == self.version@,
            row.meta@ == self.meta@,
            row.meta_title@ == self.meta_title@,
            row.deprecated == self.deprecated,
            opt_chars(row.id) == opt_chars(self.id),
    {
        let desc = match &self.docs {
            Some(d) => d.clone(),
            None => String::new(),
        };
        let id = match &self.id {
            Some(i) => Some(i.clone()),
            None => None,
        };
        DynItemRow {
            sigil: self.sigil(),
            name: self.name.clone(),
            href: self.href.clone(),
            desc,
            version: self.version.clone(),
            meta: self.meta.clone(),
            meta_title: self.meta_title.clone(),
            deprecated: self.deprecated,
            id,
        }
    }
}

} // verus!
