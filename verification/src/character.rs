use vstd::prelude::*;

verus! {

/// A character's look: the skin layer and the optional layers drawn over it.
#[derive(Clone, Debug)]
pub struct CharacterAppearance {
    pub skin: String,
    pub shoes: Option<String>,
    pub clothes: Option<String>,
    pub gloves: Option<String>,
    pub hairstyle: Option<String>,
    pub facial_hair: Option<String>,
    pub eye_color: Option<String>,
    pub eyelashes: Option<String>,
    pub headgear: Option<String>,
    pub addon: Option<String>,
}

impl CharacterAppearance {
    /// The plain human look: skin "Human1" and no other layer.
    pub fn default_human() -> (a: Self)
        ensures
            a.skin@ == "Human1"@,
            a.shoes is None,
            a.clothes is None,
            a.gloves is None,
            a.hairstyle is None,
            a.facial_hair is None,
            a.eye_color is None,
            a.eyelashes is None,
            a.headgear is None,
            a.addon is None,
    {
        CharacterAppearance {
            skin: "Human1".to_owned(),
            shoes: None,
            clothes: None,
            gloves: None,
            hairstyle: None,
            facial_hair: None,
            eye_color: None,
            eyelashes: None,
            headgear: None,
            addon: None,
        }
    }
}

/// One choice for a layer: its display name and the path of its image.
#[derive(Clone, Debug)]
pub struct LayerOption {
    pub name: String,
    pub path: String,
}

/// All layer choices found among the assets, per category.
#[derive(Clone, Debug)]
pub struct LayerCatalog {
    pub skins: Vec<LayerOption>,
    pub shoes: Vec<LayerOption>,
    pub clothes: Vec<LayerOption>,
    pub gloves: Vec<LayerOption>,
    pub hairstyles: Vec<LayerOption>,
    pub facial_hair: Vec<LayerOption>,
    pub eye_colors: Vec<LayerOption>,
    pub eyelashes: Vec<LayerOption>,
    pub headgears: Vec<LayerOption>,
    pub addons: Vec<LayerOption>,
}

/// The categories of layers, in the creator's order.
#[derive(Clone, Copy, Debug, PartialEq, Eq, Structural)]
pub enum LayerCategory {
    Skin,
    Shoes,
    Clothes,
    Gloves,
    Hairstyle,
    FacialHair,
    EyeColor,
    Eyelashes,
    Headgear,
    Addon,
}

pub open spec fn spec_category_index(cat: LayerCategory) -> int {
    match cat {
        LayerCategory::Skin => 0,
        LayerCategory::Shoes => 1,
        LayerCategory::Clothes => 2,
        LayerCategory::Gloves => 3,
        LayerCategory::Hairstyle => 4,
        LayerCategory::FacialHair => 5,
        LayerCategory::EyeColor => 6,
        LayerCategory::Eyelashes => 7,
        LayerCategory::Headgear => 8,
        LayerCategory::Addon => 9,
    }
}

pub open spec fn spec_category_label(cat: LayerCategory) -> Seq<char> {
    match cat {
        LayerCategory::Skin => "Skin"@,
        LayerCategory::Shoes => "Shoes"@,
        LayerCategory::Clothes => "Clothes"@,
        LayerCategory::Gloves => "Gloves"@,
        LayerCategory::Hairstyle => "Hairstyle"@,
        LayerCategory::FacialHair => "Facial Hair"@,
        LayerCategory::EyeColor => "Eye Color"@,
        LayerCategory::Eyelashes => "Eyelashes"@,
        LayerCategory::Headgear => "Headgear"@,
        LayerCategory::Addon => "Add-on"@,
    }
}

impl LayerCategory {
    /// Every category, in order.
    pub const ALL: [LayerCategory; 10] = [
        LayerCategory::Skin,
        LayerCategory::Shoes,
        LayerCategory::Clothes,
        LayerCategory::Gloves,
        LayerCategory::Hairstyle,
        LayerCategory::FacialHair,
        LayerCategory::EyeColor,
        LayerCategory::Eyelashes,
        LayerCategory::Headgear,
        LayerCategory::Addon,
    ];

    /// The category's name as shown in the creator.
    pub fn label(&self) -> (s: &'static str)
        ensures
            s@ == spec_category_label(*self),
    {
        match self {
            LayerCategory::Skin => "Skin",
            LayerCategory::Shoes => "Shoes",
            LayerCategory::Clothes => "Clothes",
            LayerCategory::Gloves => "Gloves",
            LayerCategory::Hairstyle => "Hairstyle",
            LayerCategory::FacialHair => "Facial Hair",
            LayerCategory::EyeColor => "Eye Color",
            LayerCategory::Eyelashes => "Eyelashes",
            LayerCategory::Headgear => "Headgear",
            LayerCategory::Addon => "Add-on",
        }
    }

    /// The category's slot in the creator's selection.
    pub fn index(&self) -> (i: usize)
        ensures
            i == spec_category_index(*self),
    {
        match self {
            LayerCategory::Skin => 0,
            LayerCategory::Shoes => 1,
            LayerCategory::Clothes => 2,
            LayerCategory::Gloves => 3,
            LayerCategory::Hairstyle => 4,
            LayerCategory::FacialHair => 5,
            LayerCategory::EyeColor => 6,
            LayerCategory::Eyelashes => 7,
            LayerCategory::Headgear => 8,
            LayerCategory::Addon => 9,
        }
    }
}

/// `i` is the first option named `name`.
pub open spec fn first_named(opts: Seq<LayerOption>, name: Seq<char>, i: int) -> bool {
    &&& 0 <= i < opts.len()
    &&& opts[i].name@ == name
    &&& forall|j: int| 0 <= j < i ==> (#[trigger] opts[j]).name@ != name
}

/// No option is named `name`.
pub open spec fn none_named(opts: Seq<LayerOption>, name: Seq<char>) -> bool {
    forall|j: int| 0 <= j < opts.len() ==> (#[trigger] opts[j]).name@ != name
}

/// The position of the first option named `name`.
pub fn position_of(opts: &Vec<LayerOption>, name: &String) -> (r: Option<usize>)
    ensures
        match r {
            Some(i) => first_named(opts@, name@, i as int),
            None => none_named(opts@, name@),
        },
{
    let mut i: usize = 0;
    while i < opts.len()
        invariant
            i <= opts.len(),
            forall|j: int| 0 <= j < i ==> (#[trigger] opts@[j]).name@ != name@,
        decreases opts.len() - i,
    {
        if opts[i].name == *name {
            return Some(i);
        }
        i = i + 1;
    }
    None
}

impl LayerCatalog {
    pub open spec fn spec_options(&self, cat: LayerCategory) -> Seq<LayerOption> {
        match cat {
            LayerCategory::Skin => self.skins@,
            LayerCategory::Shoes => self.shoes@,
            LayerCategory::Clothes => self.clothes@,
            LayerCategory::Gloves => self.gloves@,
            LayerCategory::Hairstyle => self.hairstyles@,
            LayerCategory::FacialHair => self.facial_hair@,
            LayerCategory::EyeColor => self.eye_colors@,
            LayerCategory::Eyelashes => self.eyelashes@,
            LayerCategory::Headgear => self.headgears@,
            LayerCategory::Addon => self.addons@,
        }
    }

    /// The choices of one category.
    pub fn options(&self, cat: LayerCategory) -> (opts: &Vec<LayerOption>)
        ensures
            opts@ == self.spec_options(cat),
    {
        match cat {
            LayerCategory::Skin => &self.skins,
            LayerCategory::Shoes => &self.shoes,
            LayerCategory::Clothes => &self.clothes,
            LayerCategory::Gloves => &self.gloves,
            LayerCategory::Hairstyle => &self.hairstyles,
            LayerCategory::FacialHair => &self.facial_hair,
            LayerCategory::EyeColor => &self.eye_colors,
            LayerCategory::Eyelashes => &self.eyelashes,
            LayerCategory::Headgear => &self.headgears,
            LayerCategory::Addon => &self.addons,
        }
    }

    /// The image path of the first choice named `name` in a category.
    pub fn find_path(&self, category: LayerCategory, name: &str) -> (r: Option<String>)
        ensures
            match r {
                Some(p) => exists|i: int|
                    first_named(self.spec_options(category), name@, i) && p@ == (#[trigger] self.spec_options(
                        category,
                    )[i]).path@,
                None => none_named(self.spec_options(category), name@),
            },
    {
        let opts = self.options(category);
        let wanted = name.to_owned();
        match position_of(opts, &wanted) {
            Some(i) => Some(opts[i].path.clone()),
            None => None,
        }
    }
}

/// The name of the option `idx` selects, if it selects one that exists.
pub open spec fn selected_name(opts: Seq<LayerOption>, idx: Option<usize>) -> Option<Seq<char>> {
    match idx {
        Some(i) => if i < opts.len() {
            Some(opts[i as int].name@)
        } else {
            None
        },
        None => None,
    }
}

pub open spec fn opt_view(s: Option<String>) -> Option<Seq<char>> {
    match s {
        Some(v) => Some(v@),
        None => None,
    }
}

fn name_at(opts: &Vec<LayerOption>, idx: Option<usize>) -> (r: Option<String>)
    ensures
        opt_view(r) == selected_name(opts@, idx),
{
    match idx {
        Some(i) => if i < opts.len() {
            Some(opts[i].name.clone())
        } else {
            None
        },
        None => None,
    }
}

/// The appearance the creator's selection stands for: for each category
/// the name of the selected choice; the skin falls back to "Human1" when
/// nothing valid is selected.
pub fn appearance_from_selection(catalog: &LayerCatalog, selected: &[Option<usize>; 10]) -> (a: CharacterAppearance)
    ensures
        a.skin@ == (match selected_name(catalog.skins@, selected@[0]) {
            Some(n) => n,
            None => "Human1"@,
        }),
        opt_view(a.shoes) == selected_name(catalog.shoes@, selected@[1]),
        opt_view(a.clothes) == selected_name(catalog.clothes@, selected@[2]),
        opt_view(a.gloves) == selected_name(catalog.gloves@, selected@[3]),
        opt_view(a.hairstyle) == selected_name(catalog.hairstyles@, selected@[4]),
        opt_view(a.facial_hair) == selected_name(catalog.facial_hair@, selected@[5]),
        opt_view(a.eye_color) == selected_name(catalog.eye_colors@, selected@[6]),
        opt_view(a.eyelashes) == selected_name(catalog.eyelashes@, selected@[7]),
        opt_view(a.headgear) == selected_name(catalog.headgears@, selected@[8]),
        opt_view(a.addon) == selected_name(catalog.addons@, selected@[9]),
{
    let skin = match name_at(&catalog.skins, selected[0]) {
        Some(n) => n,
        None => "Human1".to_owned(),
    };
    CharacterAppearance {
        skin,
        shoes: name_at(&catalog.shoes, selected[1]),
        clothes: name_at(&catalog.clothes, selected[2]),
        gloves: name_at(&catalog.gloves, selected[3]),
        hairstyle: name_at(&catalog.hairstyles, selected[4]),
        facial_hair: name_at(&catalog.facial_hair, selected[5]),
        eye_color: name_at(&catalog.eye_colors, selected[6]),
        eyelashes: name_at(&catalog.eyelashes, selected[7]),
        headgear: name_at(&catalog.headgears, selected[8]),
        addon: name_at(&catalog.addons, selected[9]),
    }
}

/// The selection of an optional layer for a saved name: the first choice
/// with that name, or nothing.
pub open spec fn selects(opts: Seq<LayerOption>, name: Option<Seq<char>>, idx: Option<usize>) -> bool {
    match name {
        Some(n) => match idx {
            Some(i) => first_named(opts, n, i as int),
            None => none_named(opts, n),
        },
        None => idx is None,
    }
}

fn select_optional(opts: &Vec<LayerOption>, name: &Option<String>) -> (r: Option<usize>)
    ensures
        selects(opts@, opt_view(*name), r),
{
    match name {
        Some(n) => position_of(opts, n),
        None => None,
    }
}

/// The creator's starting selection: the first skin and nothing else.
pub fn reset_selection() -> (selected: [Option<usize>; 10])
    ensures
        selected@[0] == Some(0usize),
        forall|i: int| 1 <= i < 10 ==> #[trigger] selected@[i] is None,
{
    [Some(0), None, None, None, None, None, None, None, None, None]
}

/// Points the creator's selection at a loaded appearance: the skin at its
/// first match (the first skin when none matches) and every optional
/// layer, shoes through add-on, at its first match or nothing.
pub fn sync_selection(selected: &mut [Option<usize>; 10], catalog: &LayerCatalog, appearance: &CharacterAppearance)
    ensures
        match position_spec(catalog.skins@, appearance.skin@) {
            Some(i) => final(selected)@[0] == Some(i as usize),
            None => final(selected)@[0] == Some(0usize),
        },
        selects(catalog.shoes@, opt_view(appearance.shoes), final(selected)@[1]),
        selects(catalog.clothes@, opt_view(appearance.clothes), final(selected)@[2]),
        selects(catalog.gloves@, opt_view(appearance.gloves), final(selected)@[3]),
        selects(catalog.hairstyles@, opt_view(appearance.hairstyle), final(selected)@[4]),
        selects(catalog.facial_hair@, opt_view(appearance.facial_hair), final(selected)@[5]),
        selects(catalog.eye_colors@, opt_view(appearance.eye_color), final(selected)@[6]),
        selects(catalog.eyelashes@, opt_view(appearance.eyelashes), final(selected)@[7]),
        selects(catalog.headgears@, opt_view(appearance.headgear), final(selected)@[8]),
        selects(catalog.addons@, opt_view(appearance.addon), final(selected)@[9]),
{
    let skin = position_of(&catalog.skins, &appearance.skin);
    proof {
        lemma_position_spec(catalog.skins@, appearance.skin@);
        match skin {
            Some(i) => lemma_first_named_unique(catalog.skins@, appearance.skin@, i as int, position_spec(catalog.skins@, appearance.skin@).unwrap()),
            None => {},
        }
    }
    selected[0] = match skin {
        Some(i) => Some(i),
        None => Some(0),
    };
    selected[1] = select_optional(&catalog.shoes, &appearance.shoes);
    selected[2] = select_optional(&catalog.clothes, &appearance.clothes);
    selected[3] = select_optional(&catalog.gloves, &appearance.gloves);
    selected[4] = select_optional(&catalog.hairstyles, &appearance.hairstyle);
    selected[5] = select_optional(&catalog.facial_hair, &appearance.facial_hair);
    selected[6] = select_optional(&catalog.eye_colors, &appearance.eye_color);
    selected[7] = select_optional(&catalog.eyelashes, &appearance.eyelashes);
    selected[8] = select_optional(&catalog.headgears, &appearance.headgear);
    selected[9] = select_optional(&catalog.addons, &appearance.addon);
}

/// The position of the first option named `name`, if any.
pub open spec fn position_spec(opts: Seq<LayerOption>, name: Seq<char>) -> Option<int> {
    if exists|i: int| first_named(opts, name, i) {
        Some(choose|i: int| first_named(opts, name, i))
    } else {
        None
    }
}

/// At most one position is the first with a given name.
pub proof fn lemma_first_named_unique(opts: Seq<LayerOption>, name: Seq<char>, i: int, j: int)
    requires
        first_named(opts, name, i),
        first_named(opts, name, j),
    ensures
        i == j,
{
    if i < j {
        assert(opts[i].name@ != name);
    }
    if j < i {
        assert(opts[j].name@ != name);
    }
}

/// A name is found exactly when some option carries it.
pub proof fn lemma_position_spec(opts: Seq<LayerOption>, name: Seq<char>)
    ensures
        position_spec(opts, name) is None <==> none_named(opts, name),
        position_spec(opts, name) matches Some(i) ==> first_named(opts, name, i),
{
    if !none_named(opts, name) {
        let k = choose|k: int| 0 <= k < opts.len() && (#[trigger] opts[k]).name@ == name;
        lemma_first_exists(opts, name, k);
    }
}

proof fn lemma_first_exists(opts: Seq<LayerOption>, name: Seq<char>, k: int)
    requires
        0 <= k < opts.len(),
        opts[k].name@ == name,
    ensures
        exists|i: int| first_named(opts, name, i),
    decreases k,
{
    if forall|j: int| 0 <= j < k ==> (#[trigger] opts[j]).name@ != name {
        assert(first_named(opts, name, k));
    } else {
        let j = choose|j: int| 0 <= j < k && (#[trigger] opts[j]).name@ == name;
        lemma_first_exists(opts, name, j);
    }
}

/// Loading an appearance into the selection and reading the selection
/// back gives each optional layer its saved name
/// whenever the catalog offers that name, and nothing where nothing was
/// saved; a skin the catalog offers comes back too.
pub proof fn lemma_sync_then_read_back(catalog: LayerCatalog, name: Option<Seq<char>>, cat: LayerCategory, idx: Option<usize>)
    requires
        selects(catalog.spec_options(cat), name, idx),
        name matches Some(n) ==> !none_named(catalog.spec_options(cat), n),
    ensures
        selected_name(catalog.spec_options(cat), idx) == name,
{
}

/// Draws `macroquad::rand::gen_range::<i32>(0, high)` from macroquad's
/// global generator. Trusted: the draw lies in `0..high`, which the
/// crate's source gives for ranges this small (it scales a 32-bit random
/// fraction below one into the range and truncates); the value itself
/// depends on the generator's state, so nothing more is stated.
#[verifier::external_body]
fn random_below(high: i32) -> (r: i32)
    requires
        0 < high <= 0x10_0000,
    ensures
        0 <= r < high,
{
    macroquad::rand::gen_range(0, high)
}

/// Largest category size the random creator draws from.
pub const MAX_RANDOM_CHOICES: usize = 0x10_0000;

/// Whether an optional layer is worn for a roll in `0..100`: about 70% of
/// rolls keep a layer, the 30 lowest leave it empty.
pub fn keeps_optional_layer(percent_roll: i32) -> (b: bool)
    ensures
        b == (percent_roll >= 30),
{
    percent_roll >= 30
}

/// A valid selection for the catalog: every selected index names a choice.
pub open spec fn selection_valid(catalog: LayerCatalog, selected: Seq<Option<usize>>) -> bool {
    forall|k: int| 0 <= k < 10 ==> (#[trigger] selected[k] matches Some(i) ==> i < catalog.spec_options(category_at(k)).len())
}

pub open spec fn category_at(k: int) -> LayerCategory {
    if k == 0 {
        LayerCategory::Skin
    } else if k == 1 {
        LayerCategory::Shoes
    } else if k == 2 {
        LayerCategory::Clothes
    } else if k == 3 {
        LayerCategory::Gloves
    } else if k == 4 {
        LayerCategory::Hairstyle
    } else if k == 5 {
        LayerCategory::FacialHair
    } else if k == 6 {
        LayerCategory::EyeColor
    } else if k == 7 {
        LayerCategory::Eyelashes
    } else if k == 8 {
        LayerCategory::Headgear
    } else {
        LayerCategory::Addon
    }
}

/// The number of choices in the category at selection slot `k`.
fn category_len(catalog: &LayerCatalog, k: usize) -> (n: usize)
    requires
        k < 10,
    ensures
        n == catalog.spec_options(category_at(k as int)).len(),
{
    match k {
        0 => catalog.skins.len(),
        1 => catalog.shoes.len(),
        2 => catalog.clothes.len(),
        3 => catalog.gloves.len(),
        4 => catalog.hairstyles.len(),
        5 => catalog.facial_hair.len(),
        6 => catalog.eye_colors.len(),
        7 => catalog.eyelashes.len(),
        8 => catalog.headgears.len(),
        _ => catalog.addons.len(),
    }
}

/// One optional layer for its draws: nothing when its category is empty
/// or the roll is below 30, else the picked choice.
pub open spec fn layer_from_draws(count: int, roll: i32, pick: usize) -> Option<usize> {
    if count == 0 || roll < 30 {
        None
    } else {
        Some(pick)
    }
}

/// A pick is drawn below the category's size whenever the layer is worn.
pub open spec fn draws_fit(count: int, roll: i32, pick: usize) -> bool {
    count == 0 || roll < 30 || pick < count
}

/// The random look for its draws: the skin is `skin_draw` (nothing when
/// there are no skins), and optional layer `k` (shoes at 1 up to add-on at
/// 9) is empty when its category is empty or `rolls[k - 1]` is below 30,
/// else `picks[k - 1]`.
pub fn selection_from_draws(catalog: &LayerCatalog, skin_draw: usize, rolls: [i32; 9], picks: [usize; 9]) -> (s: [Option<usize>; 10])
    requires
        catalog.skins.len() > 0 ==> skin_draw < catalog.skins.len(),
        forall|j: int|
            0 <= j < 9 ==> draws_fit(
                catalog.spec_options(category_at(j + 1)).len() as int,
                #[trigger] rolls@[j],
                picks@[j],
            ),
    ensures
        s@[0] == (if catalog.skins.len() == 0 {
            None
        } else {
            Some(skin_draw)
        }),
        forall|k: int|
            1 <= k < 10 ==> #[trigger] s@[k] == layer_from_draws(
                catalog.spec_options(category_at(k)).len() as int,
                rolls@[k - 1],
                picks@[k - 1],
            ),
        selection_valid(*catalog, s@),
{
    let mut s: [Option<usize>; 10] = [None, None, None, None, None, None, None, None, None, None];
    s[0] = if catalog.skins.len() == 0 {
        None
    } else {
        Some(skin_draw)
    };
    let mut j: usize = 0;
    while j < 9
        invariant
            j <= 9,
            s@[0] == (if catalog.skins.len() == 0 {
                None
            } else {
                Some(skin_draw)
            }),
            forall|k: int|
                1 <= k <= j ==> #[trigger] s@[k] == layer_from_draws(
                    catalog.spec_options(category_at(k)).len() as int,
                    rolls@[k - 1],
                    picks@[k - 1],
                ),
        decreases 9 - j,
    {
        let n = category_len(catalog, j + 1);
        s[j + 1] = if n == 0 || !keeps_optional_layer(rolls[j]) {
            None
        } else {
            Some(picks[j])
        };
        j += 1;
    }
    assert forall|k: int| 0 <= k < 10 implies (#[trigger] s@[k] matches Some(i) ==> i
        < catalog.spec_options(category_at(k)).len()) by {
        if k > 0 {
            assert(draws_fit(catalog.spec_options(category_at(k)).len() as int, rolls@[k - 1], picks@[k - 1]));
        }
    }
    s
}

/// A look drawn from a generator, where `gave(n, d)` says the generator
/// gave `d` when asked for a value in `0..n`: the skin is a value it gave
/// for the number of skins (nothing when there are none), and each
/// optional layer with choices is decided by a value it gave for 100: below
/// 30 the layer stays empty, otherwise it holds a value the generator gave
/// for the layer's number of choices; a layer without choices stays empty.
pub open spec fn drawn_look(gave: spec_fn(i32, i32) -> bool, catalog: LayerCatalog, selected: Seq<Option<usize>>) -> bool {
    &&& catalog.skins.len() == 0 ==> selected[0] is None
    &&& catalog.skins.len() > 0 ==> exists|d: i32|
        #[trigger] gave(catalog.skins.len() as i32, d) && selected[0] == Some(d as usize)
    &&& forall|k: int|
        1 <= k < 10 ==> {
            let n = catalog.spec_options(category_at(k)).len();
            &&& n == 0 ==> #[trigger] selected[k] is None
            &&& n > 0 ==> exists|roll: i32|
                #[trigger] gave(100i32, roll) && (roll < 30 ==> selected[k] is None) && (roll >= 30 ==> exists|pick: i32|
                    #[trigger] gave(n as i32, pick) && selected[k] == Some(pick as usize))
        }
}

/// `r` is a value that [`random_below`] (macroquad's generator) returned
/// for `high`.
pub closed spec fn generator_gave(high: i32, r: i32) -> bool {
    call_ensures(random_below, (high,), r)
}

/// Randomizes the look with `draw` as the generator, drawing in the order
/// the creator does: the skin, then for each optional layer with choices
/// a roll in `0..100` and, when the roll keeps the layer, a pick.
pub fn randomize_selection_with<F: Fn(i32) -> i32>(selected: &mut [Option<usize>; 10], catalog: &LayerCatalog, draw: F)
    requires
        forall|k: int| 0 <= k < 10 ==> #[trigger] catalog.spec_options(category_at(k)).len() <= MAX_RANDOM_CHOICES,
        forall|h: i32| 0 < h <= MAX_RANDOM_CHOICES ==> #[trigger] call_requires(draw, (h,)),
        forall|h: i32, r: i32| 0 < h <= MAX_RANDOM_CHOICES && #[trigger] call_ensures(draw, (h,), r) ==> 0 <= r < h,
    ensures
        drawn_look((|h: i32, r: i32| call_ensures(draw, (h,), r)), *catalog, final(selected)@),
        selection_valid(*catalog, final(selected)@),
        forall|k: int| 0 <= k < 10 && catalog.spec_options(category_at(k)).len() == 0 ==> #[trigger] final(selected)@[k] is None,
        catalog.skins.len() > 0 ==> final(selected)@[0] is Some,
{
    assert(catalog.spec_options(category_at(0)).len() <= MAX_RANDOM_CHOICES);
    let skins = catalog.skins.len();
    let mut skin_raw: i32 = 0;
    if skins > 0 {
        skin_raw = draw(skins as i32);
    }
    let skin_draw: usize = skin_raw as usize;
    let mut rolls: [i32; 9] = [0, 0, 0, 0, 0, 0, 0, 0, 0];
    let mut picks: [usize; 9] = [0, 0, 0, 0, 0, 0, 0, 0, 0];
    let mut j: usize = 0;
    while j < 9
        invariant
            j <= 9,
            forall|k: int| 0 <= k < 10 ==> #[trigger] catalog.spec_options(category_at(k)).len() <= MAX_RANDOM_CHOICES,
            forall|h: i32| 0 < h <= MAX_RANDOM_CHOICES ==> #[trigger] call_requires(draw, (h,)),
            forall|h: i32, r: i32| 0 < h <= MAX_RANDOM_CHOICES && #[trigger] call_ensures(draw, (h,), r) ==> 0 <= r < h,
            forall|i: int|
                0 <= i < j ==> draws_fit(
                    catalog.spec_options(category_at(i + 1)).len() as int,
                    #[trigger] rolls@[i],
                    picks@[i],
                ),
            forall|i: int|
                0 <= i < j && catalog.spec_options(category_at(i + 1)).len() > 0 ==> call_ensures(
                    draw,
                    (100i32,),
                    #[trigger] rolls@[i],
                ) && (rolls@[i] >= 30 ==> call_ensures(
                    draw,
                    (catalog.spec_options(category_at(i + 1)).len() as i32,),
                    picks@[i] as i32,
                )),
        decreases 9 - j,
    {
        let n = category_len(catalog, j + 1);
        assert(catalog.spec_options(category_at(j + 1)).len() <= MAX_RANDOM_CHOICES);
        if n > 0 {
            let roll = draw(100);
            rolls[j] = roll;
            if keeps_optional_layer(roll) {
                let pick = draw(n as i32);
                picks[j] = pick as usize;
            }
        }
        j += 1;
    }
    *selected = selection_from_draws(catalog, skin_draw, rolls, picks);
    proof {
        let sel = selected@;
        let gave = |h: i32, r: i32| call_ensures(draw, (h,), r);
        if skins > 0 {
            assert(gave(catalog.skins.len() as i32, skin_raw) && sel[0] == Some(skin_raw as usize));
        }
        assert forall|k: int| 1 <= k < 10 implies {
            let n = catalog.spec_options(category_at(k)).len();
            &&& n == 0 ==> #[trigger] sel[k] is None
            &&& n > 0 ==> exists|roll: i32|
                #[trigger] gave(100i32, roll) && (roll < 30 ==> sel[k] is None) && (roll >= 30 ==> exists|pick: i32|
                    #[trigger] gave(n as i32, pick) && sel[k] == Some(pick as usize))
        } by {
            let n = catalog.spec_options(category_at(k)).len();
            if n > 0 {
                let roll = rolls@[k - 1];
                assert(gave(100i32, roll));
                if roll >= 30 {
                    let pick = picks@[k - 1] as i32;
                    assert(gave(n as i32, pick));
                    assert(sel[k] == Some(pick as usize));
                }
            }
        }
        assert(drawn_look(gave, *catalog, sel));
    }
}

/// A random look drawn from macroquad's generator through [`random_below`]:
/// the skin drawn among the skins, and for each optional layer with choices
/// a roll in `0..100`, then, when the roll keeps the layer, a pick among
/// its choices, as [`drawn_look`] states with that generator
/// ([`generator_gave`]).
pub fn randomize_selection(selected: &mut [Option<usize>; 10], catalog: &LayerCatalog)
    requires
        forall|k: int| 0 <= k < 10 ==> #[trigger] catalog.spec_options(category_at(k)).len() <= MAX_RANDOM_CHOICES,
    ensures
        drawn_look((|h: i32, r: i32| generator_gave(h, r)), *catalog, final(selected)@),
        selection_valid(*catalog, final(selected)@),
        forall|k: int| 0 <= k < 10 && catalog.spec_options(category_at(k)).len() == 0 ==> #[trigger] final(selected)@[k] is None,
        catalog.skins.len() > 0 ==> final(selected)@[0] is Some,
{
    randomize_selection_with(selected, catalog, random_below);
    proof {
        let f1 = |h: i32, r: i32| call_ensures(random_below, (h,), r);
        let f2 = |h: i32, r: i32| generator_gave(h, r);
        assert(f1 =~= f2);
    }
}

} // verus!
