//! The `.tx/config` file of the Transifex client, as a value: one main
//! section and one section for each resource.

use vstd::prelude::*;

verus! {

/// The main section of a `.tx/config` file.
#[derive(Debug, PartialEq, Eq)]
pub struct TxConfigSectionMain {
    pub host: String,
}

/// What a main section says.
pub struct SectionMainView {
    pub host: Seq<char>,
}

impl View for TxConfigSectionMain {
    type V = SectionMainView;

    open spec fn view(&self) -> SectionMainView {
        SectionMainView { host: self.host@ }
    }
}

impl DeepView for TxConfigSectionMain {
    type V = SectionMainView;

    open spec fn deep_view(&self) -> SectionMainView {
        self@
    }
}

impl Default for TxConfigSectionMain {
    /// A main section that names no host.
    fn default() -> (section: TxConfigSectionMain)
        ensures
            section@.host == Seq::<char>::empty(),
    {
        TxConfigSectionMain { host: String::new() }
    }
}

/// The section of one resource in a `.tx/config` file.
#[derive(Debug, PartialEq, Eq)]
pub struct TxConfigSectionResource {
    /// Full slug of the resource, `o:org:p:proj:r:res`.
    pub resource_full_slug: String,
    pub file_filter: String,
    pub source_file: String,
    pub source_lang: String,
    /// The `type` key of the section.
    pub type_attr: String,
}

/// What a resource section says.
pub struct SectionResourceView {
    pub resource_full_slug: Seq<char>,
    pub file_filter: Seq<char>,
    pub source_file: Seq<char>,
    pub source_lang: Seq<char>,
    pub type_attr: Seq<char>,
}

impl View for TxConfigSectionResource {
    type V = SectionResourceView;

    open spec fn view(&self) -> SectionResourceView {
        SectionResourceView {
            resource_full_slug: self.resource_full_slug@,
            file_filter: self.file_filter@,
            source_file: self.source_file@,
            source_lang: self.source_lang@,
            type_attr: self.type_attr@,
        }
    }
}

impl DeepView for TxConfigSectionResource {
    type V = SectionResourceView;

    open spec fn deep_view(&self) -> SectionResourceView {
        self@
    }
}

impl Default for TxConfigSectionResource {
    /// A resource section with every key empty.
    fn default() -> (section: TxConfigSectionResource)
        ensures
            section@ == (SectionResourceView {
                resource_full_slug: Seq::empty(),
                file_filter: Seq::empty(),
                source_file: Seq::empty(),
                source_lang: Seq::empty(),
                type_attr: Seq::empty(),
            }),
    {
        TxConfigSectionResource {
            resource_full_slug: String::new(),
            file_filter: String::new(),
            source_file: String::new(),
            source_lang: String::new(),
            type_attr: String::new(),
        }
    }
}

/// A `.tx/config` file.
#[derive(Debug, PartialEq, Eq)]
pub struct TxConfig {
    pub main_section: TxConfigSectionMain,
    pub resource_sections: Vec<TxConfigSectionResource>,
}

/// What a `.tx/config` file says.
pub struct TxConfigView {
    pub main_section: SectionMainView,
    pub resource_sections: Seq<SectionResourceView>,
}

impl View for TxConfig {
    type V = TxConfigView;

    open spec fn view(&self) -> TxConfigView {
        TxConfigView {
            main_section: self.main_section@,
            resource_sections: self.resource_sections.deep_view(),
        }
    }
}

impl DeepView for TxConfig {
    type V = TxConfigView;

    open spec fn deep_view(&self) -> TxConfigView {
        self@
    }
}

} // verus!
