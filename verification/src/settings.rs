//! The daemon's settings shape: named sections of key/value pairs.
//!
//! Saved profiles hand this shape to the engine, and `connect` hands a newly
//! built description of the same shape back to the daemon. Values the engine
//! never reads are carried as `Other`.

use vstd::prelude::*;

verus! {

/// One element of a list-valued setting.
#[derive(Debug)]
pub enum SettingItem {
    /// A text element.
    Text(String),
    /// An element of any other type; the engine skips it.
    Other,
}

/// Model of a [`SettingItem`].
#[verifier::ext_equal]
pub enum SettingItemView {
    Text(Seq<char>),
    Other,
}

impl View for SettingItem {
    type V = SettingItemView;

    open spec fn view(&self) -> SettingItemView {
        match self {
            SettingItem::Text(t) => SettingItemView::Text(t@),
            SettingItem::Other => SettingItemView::Other,
        }
    }
}

impl DeepView for SettingItem {
    type V = SettingItemView;

    open spec fn deep_view(&self) -> SettingItemView {
        self.view()
    }
}

/// One value of a settings entry, as far as the engine reads or writes it.
#[derive(Debug)]
pub enum SettingValue {
    /// A text value.
    Text(String),
    /// A byte-array value.
    Bytes(Vec<u8>),
    /// A list value.
    List(Vec<SettingItem>),
    /// A value of any other type; the engine skips it.
    Other,
}

/// Model of a [`SettingValue`].
#[verifier::ext_equal]
pub enum SettingValueView {
    Text(Seq<char>),
    Bytes(Seq<u8>),
    List(Seq<SettingItemView>),
    Other,
}

impl View for SettingValue {
    type V = SettingValueView;

    open spec fn view(&self) -> SettingValueView {
        match self {
            SettingValue::Text(t) => SettingValueView::Text(t@),
            SettingValue::Bytes(b) => SettingValueView::Bytes(b@),
            SettingValue::List(items) => SettingValueView::List(items.deep_view()),
            SettingValue::Other => SettingValueView::Other,
        }
    }
}

impl DeepView for SettingValue {
    type V = SettingValueView;

    open spec fn deep_view(&self) -> SettingValueView {
        self.view()
    }
}

/// One key/value entry of a settings section.
#[derive(Debug)]
pub struct Setting {
    pub key: String,
    pub value: SettingValue,
}

/// Model of a [`Setting`].
#[verifier::ext_equal]
pub struct SettingView {
    pub key: Seq<char>,
    pub value: SettingValueView,
}

impl View for Setting {
    type V = SettingView;

    open spec fn view(&self) -> SettingView {
        SettingView { key: self.key@, value: self.value.deep_view() }
    }
}

impl DeepView for Setting {
    type V = SettingView;

    open spec fn deep_view(&self) -> SettingView {
        self.view()
    }
}

/// One named section of a settings mapping.
#[derive(Debug)]
pub struct Section {
    pub name: String,
    pub settings: Vec<Setting>,
}

/// Model of a [`Section`].
#[verifier::ext_equal]
pub struct SectionView {
    pub name: Seq<char>,
    pub settings: Seq<SettingView>,
}

impl View for Section {
    type V = SectionView;

    open spec fn view(&self) -> SectionView {
        SectionView { name: self.name@, settings: self.settings.deep_view() }
    }
}

impl DeepView for Section {
    type V = SectionView;

    open spec fn deep_view(&self) -> SectionView {
        self.view()
    }
}

/// The first section with the given name, if any.
pub open spec fn spec_find_section(sections: Seq<SectionView>, name: Seq<char>) -> Option<
    SectionView,
>
    decreases sections.len(),
{
    if sections.len() == 0 {
        None
    } else if sections[0].name == name {
        Some(sections[0])
    } else {
        spec_find_section(sections.drop_first(), name)
    }
}

/// The value of the first entry with the given key, if any.
pub open spec fn spec_find_setting(settings: Seq<SettingView>, key: Seq<char>) -> Option<
    SettingValueView,
>
    decreases settings.len(),
{
    if settings.len() == 0 {
        None
    } else if settings[0].key == key {
        Some(settings[0].value)
    } else {
        spec_find_setting(settings.drop_first(), key)
    }
}

/// Whether a string equals a literal key.
fn key_is(s: &String, lit: &str) -> (r: bool)
    ensures
        r == (s@ == lit@),
{
    *s == lit.to_owned()
}

/// Find the first section with the given name.
pub fn find_section<'a>(sections: &'a Vec<Section>, name: &str) -> (r: Option<&'a Section>)
    ensures
        r matches Some(sec) ==> spec_find_section(sections.deep_view(), name@) == Some(
            sec.deep_view(),
        ),
        r is None ==> spec_find_section(sections.deep_view(), name@) is None,
{
    let ghost all = sections.deep_view();
    let mut i: usize = 0;
    proof {
        assert(all.skip(0) =~= all);
    }
    while i < sections.len()
        invariant
            i <= sections.len(),
            all == sections.deep_view(),
            spec_find_section(all, name@) == spec_find_section(all.skip(i as int), name@),
        decreases sections.len() - i,
    {
        proof {
            assert(all.skip(i as int)[0] == all[i as int]);
        }
        if key_is(&sections[i].name, name) {
            return Some(&sections[i]);
        }
        proof {
            assert(all.skip(i as int).drop_first() =~= all.skip(i as int + 1));
        }
        i = i + 1;
    }
    proof {
        assert(all.skip(i as int) =~= Seq::<SectionView>::empty());
    }
    None
}

/// Find the value of the first entry with the given key.
pub fn find_setting<'a>(settings: &'a Vec<Setting>, key: &str) -> (r: Option<&'a SettingValue>)
    ensures
        r matches Some(value) ==> spec_find_setting(settings.deep_view(), key@) == Some(
            value.deep_view(),
        ),
        r is None ==> spec_find_setting(settings.deep_view(), key@) is None,
{
    let ghost all = settings.deep_view();
    let mut i: usize = 0;
    proof {
        assert(all.skip(0) =~= all);
    }
    while i < settings.len()
        invariant
            i <= settings.len(),
            all == settings.deep_view(),
            spec_find_setting(all, key@) == spec_find_setting(all.skip(i as int), key@),
        decreases settings.len() - i,
    {
        proof {
            assert(all.skip(i as int)[0] == all[i as int]);
        }
        if key_is(&settings[i].key, key) {
            return Some(&settings[i].value);
        }
        proof {
            assert(all.skip(i as int).drop_first() =~= all.skip(i as int + 1));
        }
        i = i + 1;
    }
    proof {
        assert(all.skip(i as int) =~= Seq::<SettingView>::empty());
    }
    None
}

} // verus!
