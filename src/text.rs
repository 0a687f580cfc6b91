//! Texts in several interface languages, and the labels of part attributes.
use vstd::prelude::*;
use vstd::string::*;
use crate::propagation::PartAttributes;
use crate::settings::Language;

verus! {

pub open spec fn opt_view(o: Option<String>) -> Option<Seq<char>> {
    match o {
        Some(s) => Some(s@),
        None => None,
    }
}

/// A text given in any of the interface languages.
pub struct MultiLangString {
    pub cn: Option<String>,
    pub en: Option<String>,
    pub unspecified: Option<String>,
}

/// What stands where a text is given in no language.
pub open spec fn no_text() -> Seq<char> {
    "NO TEXT FOUND"@
}

impl MultiLangString {
    pub open spec fn text_spec(&self, lang: Language) -> Option<Seq<char>> {
        match lang {
            Language::CN => opt_view(self.cn),
            Language::EN => opt_view(self.en),
            Language::UNSPECIFIED => opt_view(self.unspecified),
        }
    }

    /// The first text in language order (CN, EN, unspecified).
    pub open spec fn fallback_spec(&self) -> Seq<char> {
        if self.cn.is_some() {
            self.cn.unwrap()@
        } else if self.en.is_some() {
            self.en.unwrap()@
        } else if self.unspecified.is_some() {
            self.unspecified.unwrap()@
        } else {
            no_text()
        }
    }

    /// A text given in no language yet.
    pub fn empty() -> (r: MultiLangString)
        ensures
            r.cn.is_none() && r.en.is_none() && r.unspecified.is_none(),
    {
        MultiLangString { cn: None, en: None, unspecified: None }
    }

    /// A text given only in `lang`.
    pub fn of(lang: Language, text: String) -> (r: MultiLangString)
        ensures
            r.text_spec(lang) == Some(text@),
            forall|l: Language| l != lang ==> #[trigger] r.text_spec(l).is_none(),
    {
        MultiLangString::empty().with(lang, text)
    }

    /// This text, with its `lang` version replaced by `text`.
    pub fn with(self, lang: Language, text: String) -> (r: MultiLangString)
        ensures
            r.text_spec(lang) == Some(text@),
            forall|l: Language| l != lang ==> #[trigger] r.text_spec(l) == self.text_spec(l),
    {
        let mut r = self;
        match lang {
            Language::CN => r.cn = Some(text),
            Language::EN => r.en = Some(text),
            Language::UNSPECIFIED => r.unspecified = Some(text),
        }
        r
    }

    /// The text in `lang`, or else the fallback.
    pub fn get(&self, lang: Language) -> (r: String)
        ensures
            r@ == (match self.text_spec(lang) {
                Some(t) => t,
                None => self.fallback_spec(),
            }),
    {
        let own = match lang {
            Language::CN => &self.cn,
            Language::EN => &self.en,
            Language::UNSPECIFIED => &self.unspecified,
        };
        match own {
            Some(t) => t.clone(),
            None => self.get_fallback(),
        }
    }

    /// The first text in language order, or a placeholder where there is none.
    pub fn get_fallback(&self) -> (r: String)
        ensures
            r@ == self.fallback_spec(),
    {
        if let Some(t) = &self.cn {
            t.clone()
        } else if let Some(t) = &self.en {
            t.clone()
        } else if let Some(t) = &self.unspecified {
            t.clone()
        } else {
            String::from_str("NO TEXT FOUND")
        }
    }
}

/// The label under which attribute `a` is shown: its English name, and for
/// most attributes its Chinese name after a bar.
pub open spec fn label_spec(a: PartAttributes) -> Seq<char> {
    match a {
        PartAttributes::Id => "Id"@,
        PartAttributes::IgnorePhysics => "IgnorePhysics"@,
        PartAttributes::PositionX => "Position|位置 X"@,
        PartAttributes::PositionY => "Position|位置 Y"@,
        PartAttributes::PositionZ => "Position|位置 Z"@,
        PartAttributes::RotationX => "Rotation|旋转 X"@,
        PartAttributes::RotationY => "Rotation|旋转 Y"@,
        PartAttributes::RotationZ => "Rotation|旋转 Z"@,
        PartAttributes::ScaleX => "Scale|尺度 X"@,
        PartAttributes::ScaleY => "Scale|尺度 Y"@,
        PartAttributes::ScaleZ => "Scale|尺度 Z"@,
        PartAttributes::Color => "Color|颜色"@,
        PartAttributes::Armor => "Armor|装甲"@,
        PartAttributes::Length => "Length|长度"@,
        PartAttributes::Height => "Height|高度"@,
        PartAttributes::FrontWidth => "ForwardWidth|前段宽度"@,
        PartAttributes::BackWidth => "BackwardWidth|后段宽度"@,
        PartAttributes::FrontSpread => "ForwardSpread|前段扩散"@,
        PartAttributes::BackSpread => "BackwardSpread|后段扩散"@,
        PartAttributes::TopRoundness => "TopRoundness|上表面弧度"@,
        PartAttributes::BottomRoundness => "BottomRoundness|下表面弧度"@,
        PartAttributes::HeightScale => "HeightScale|高度缩放"@,
        PartAttributes::HeightOffset => "HeightOffset|高度偏移"@,
        PartAttributes::ManualControl => "ManualControl"@,
        PartAttributes::Elevator => "Elevator"@,
    }
}

impl PartAttributes {
    /// The label under which the attribute is shown.
    pub fn label(&self) -> (r: String)
        ensures
            r@ == label_spec(*self),
    {
        match self {
            PartAttributes::Id => String::from_str("Id"),
            PartAttributes::IgnorePhysics => String::from_str("IgnorePhysics"),
            PartAttributes::PositionX => String::from_str("Position|位置 X"),
            PartAttributes::PositionY => String::from_str("Position|位置 Y"),
            PartAttributes::PositionZ => String::from_str("Position|位置 Z"),
            PartAttributes::RotationX => String::from_str("Rotation|旋转 X"),
            PartAttributes::RotationY => String::from_str("Rotation|旋转 Y"),
            PartAttributes::RotationZ => String::from_str("Rotation|旋转 Z"),
            PartAttributes::ScaleX => String::from_str("Scale|尺度 X"),
            PartAttributes::ScaleY => String::from_str("Scale|尺度 Y"),
            PartAttributes::ScaleZ => String::from_str("Scale|尺度 Z"),
            PartAttributes::Color => String::from_str("Color|颜色"),
            PartAttributes::Armor => String::from_str("Armor|装甲"),
            PartAttributes::Length => String::from_str("Length|长度"),
            PartAttributes::Height => String::from_str("Height|高度"),
            PartAttributes::FrontWidth => String::from_str("ForwardWidth|前段宽度"),
            PartAttributes::BackWidth => String::from_str("BackwardWidth|后段宽度"),
            PartAttributes::FrontSpread => String::from_str("ForwardSpread|前段扩散"),
            PartAttributes::BackSpread => String::from_str("BackwardSpread|后段扩散"),
            PartAttributes::TopRoundness => String::from_str("TopRoundness|上表面弧度"),
            PartAttributes::BottomRoundness => String::from_str("BottomRoundness|下表面弧度"),
            PartAttributes::HeightScale => String::from_str("HeightScale|高度缩放"),
            PartAttributes::HeightOffset => String::from_str("HeightOffset|高度偏移"),
            PartAttributes::ManualControl => String::from_str("ManualControl"),
            PartAttributes::Elevator => String::from_str("Elevator"),
        }
    }
}

} // verus!
