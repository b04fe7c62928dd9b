//! The creation windows: the recipes of a creation kind, and the detail
//! dialog of a recipe with its ingredients.
use vstd::prelude::*;
use crate::choose_window::ListResponse;
use crate::command::{Command, InputMode};
use crate::dialog::DialogResult;
use crate::dialogs::{check_escape_click, closer_result, escape_click_after};
use crate::geom::Rect;
use crate::group_window::{MemberInfo, member_ids};
use crate::strutil::{decimal, push_decimal, push_str};
use crate::text::TextArgs;
use crate::texts::{TextBundles, lookup, material_group, misc_txt, no_args, obj_text, obj_txt, ui_txt, ui_txt_with_args};

verus! {

/// The kinds of creation.
#[derive(Clone, Copy, Debug, PartialEq, Eq, Structural)]
pub enum CreationKind {
    Art,
    Construction,
    Cooking,
    Craft,
    Pharmacy,
    Smith,
}

/// The tab of a creation kind in the creation window group.
pub open spec fn creation_tab(kind: CreationKind) -> u32 {
    match kind {
        CreationKind::Art => 0,
        CreationKind::Construction => 1,
        CreationKind::Cooking => 2,
        CreationKind::Craft => 3,
        CreationKind::Pharmacy => 4,
        CreationKind::Smith => 5,
    }
}

/// The tab the creation window group opens on: that of the kind asked for,
/// else the first.
pub fn creation_tab_index(kind: Option<CreationKind>) -> (i: u32)
    ensures
        i == (match kind { Some(k) => creation_tab(k), None => 0 }),
{
    match kind {
        Some(k) => match k {
            CreationKind::Art => 0,
            CreationKind::Construction => 1,
            CreationKind::Cooking => 2,
            CreationKind::Craft => 3,
            CreationKind::Pharmacy => 4,
            CreationKind::Smith => 5,
        },
        None => 0,
    }
}

/// A recipe: the product, the ingredients (object id or material group
/// id, with the count needed), the material group of each ingredient (as
/// the creation rules tell it), the facility needed, and the difficulty.
pub struct Recipe {
    pub product: String,
    pub ingredients: Vec<(String, u32)>,
    pub groups: Vec<Option<String>>,
    pub facility: Option<String>,
    pub difficulty: u32,
}

/// The text of an optional string.
pub open spec fn opt_view(o: Option<String>) -> Option<Seq<char>> {
    match o {
        Some(s) => Some(s@),
        None => None,
    }
}

/// A row of the ingredient list: the item shown (`None`: the question
/// icon), its name, and the count owned over the count needed.
pub struct IngredientRow {
    pub item: Option<String>,
    pub name: String,
    pub count: String,
}

/// The item used for ingredient `i`: a material group's ingredient uses the
/// selected available material (none when there is none), another uses
/// itself.
pub open spec fn ingredient_item(r: Recipe, available: Seq<(String, u32)>, selected: int, i: int) -> Option<Seq<char>> {
    match r.groups@[i] {
        Some(_) => if 0 <= selected < available.len() { Some(available[selected].0@) } else { None },
        None => Some(r.ingredients@[i].0@),
    }
}

/// The row of ingredient `i`, where `owned` is the count of the item it
/// uses that the player has.
pub open spec fn ingredient_row(t: TextBundles, r: Recipe, available: Seq<(String, u32)>, selected: int, owned: u32, i: int)
    -> (Option<Seq<char>>, Seq<char>, Seq<char>)
{
    let n = r.ingredients@[i].1;
    match ingredient_item(r, available, selected, i) {
        None => (None,
            lookup(t.ui, "list_item_text-creation-no_ingredient"@,
                seq![("group"@, lookup(t.misc, "material_group-"@ + r.groups@[i].unwrap()@, no_args()))]),
            "0/"@ + decimal(n as nat)),
        Some(id) => (Some(id),
            match r.groups@[i] {
                Some(g) => "("@ + lookup(t.misc, "material_group-"@ + g@, no_args()) + ") "@ + obj_text(t, id),
                None => obj_text(t, id),
            },
            decimal(owned as nat) + "/"@ + decimal(n as nat)),
    }
}

/// Whether there are enough ingredients: each ingredient has an item, and
/// the player has as many of it as needed.
pub open spec fn enough_ingredients(r: Recipe, available: Seq<(String, u32)>, selected: int, owned: Seq<u32>) -> bool {
    forall|i: int| 0 <= i < r.ingredients@.len() ==> #[trigger] ingredient_ok(r, available, selected, owned, i)
}

/// Whether ingredient `i` has an item, of which the player has enough.
pub open spec fn ingredient_ok(r: Recipe, available: Seq<(String, u32)>, selected: int, owned: Seq<u32>, i: int) -> bool {
    ingredient_item(r, available, selected, i).is_some() && owned[i] >= r.ingredients@[i].1
}

/// Whether the first `n` ingredients are all there.
spec fn first_ok(r: Recipe, available: Seq<(String, u32)>, selected: int, owned: Seq<u32>, n: int) -> bool
    decreases n,
{
    if n <= 0 { true } else { first_ok(r, available, selected, owned, n - 1) && ingredient_ok(r, available, selected, owned, n - 1) }
}

proof fn lemma_first_ok(r: Recipe, available: Seq<(String, u32)>, selected: int, owned: Seq<u32>, n: int)
    requires
        n >= 0,
    ensures
        first_ok(r, available, selected, owned, n)
            == (forall|k: int| 0 <= k < n ==> #[trigger] ingredient_ok(r, available, selected, owned, k)),
    decreases n,
{
    if n > 0 {
        lemma_first_ok(r, available, selected, owned, n - 1);
        if !ingredient_ok(r, available, selected, owned, n - 1) {
            assert(!(forall|k: int| 0 <= k < n ==> #[trigger] ingredient_ok(r, available, selected, owned, k)));
        }
    }
}

/// The dialog that shows what a recipe needs and starts the creation.
pub struct CreationDetailDialog {
    pub rect: Rect,
    pub kind: CreationKind,
    /// The recipe's position in the creation window's list.
    pub recipe_index: usize,
    pub recipe: Recipe,
    /// The materials the player has for the recipe's material groups, with
    /// their counts.
    pub available_material: Vec<(String, u32)>,
    pub selected_material: usize,
    /// Whether the facility and the skill needed are there.
    pub available_skill_facility: bool,
    pub product_name: String,
    pub rows: Vec<IngredientRow>,
    /// The start button's text, when the creation can start.
    pub start_button: Option<String>,
    pub cancel_button: String,
    pub facility_ok: bool,
    pub facility_label: String,
    pub enough_ingredients: bool,
    pub enough_ingredients_label: String,
    pub required_skill_ok: bool,
    pub required_skill_label: String,
    pub escape_click: bool,
}

/// The facility label: the facility found, else the facility needed, else
/// that none is needed.
pub open spec fn facility_label(t: TextBundles, facility: Option<String>, found: Option<String>) -> Seq<char> {
    match found {
        Some(item) => lookup(t.ui, "label_text-creation-use-facility"@, no_args()) + ": "@ + item@,
        None => match facility {
            Some(name) => lookup(t.ui, "label_text-creation-required-facility"@, no_args()) + ": "@
                + lookup(t.misc, "facility-"@ + name@, no_args()),
            None => lookup(t.ui, "label_text-creation-no-required-facility"@, no_args()),
        },
    }
}

/// What the creation detail dialog asks of the game.
pub enum CreationRequest {
    Nothing,
    /// Open the detail dialog of the recipe at this position.
    OpenDetail(usize),
    /// Count the items the ingredients use (`ingredient_items`) and update
    /// the detail dialog.
    UpdateDetail,
    /// Start the creation of the detail dialog's recipe, with the available
    /// material at this position.
    StartCreation { kind: CreationKind, recipe_index: usize, material: Option<usize> },
}

/// The material selected after the detail dialog took `response`:
/// choosing a material group's ingredient selects the next available
/// material, after the last the first.
pub open spec fn selected_after(d: CreationDetailDialog, response: Option<ListResponse>) -> usize {
    match response {
        Some(ListResponse::Select(i)) =>
            if d.recipe.groups@[i as int].is_some() {
                if d.selected_material + 1 >= d.available_material@.len() { 0 } else { (d.selected_material + 1) as usize }
            } else {
                d.selected_material
            },
        _ => d.selected_material,
    }
}

/// What the detail dialog answers to a command: the escape click first,
/// then `detail_answer`.
pub open spec fn detail_outcome<W, G>(d: CreationDetailDialog, command: Command, response: Option<ListResponse>,
    start_clicked: bool, cancel_clicked: bool) -> (DialogResult<W, G>, CreationRequest)
{
    match closer_result::<W, G>(d.escape_click, d.rect, command, true, false) {
        Some(c) => (c, CreationRequest::Nothing),
        None => detail_answer(d, command, response, start_clicked, cancel_clicked),
    }
}

/// The material selected after the detail dialog took a command.
pub open spec fn detail_selected(d: CreationDetailDialog, command: Command, response: Option<ListResponse>) -> usize {
    match closer_result::<(), ()>(d.escape_click, d.rect, command, true, false) {
        Some(_) => d.selected_material,
        None => selected_after(d, response),
    }
}

/// What the detail dialog answers to a command that the escape click did
/// not take.
pub open spec fn detail_answer<W, G>(d: CreationDetailDialog, command: Command, response: Option<ListResponse>,
    start_clicked: bool, cancel_clicked: bool) -> (DialogResult<W, G>, CreationRequest)
{
    match response {
        Some(ListResponse::Select(i)) =>
            if d.recipe.groups@[i as int].is_some() {
                (DialogResult::Continue, CreationRequest::UpdateDetail)
            } else {
                (DialogResult::Continue, CreationRequest::Nothing)
            },
        _ =>
            if d.start_button.is_some() && start_clicked {
                (DialogResult::CloseAll, CreationRequest::StartCreation {
                    kind: d.kind,
                    recipe_index: d.recipe_index,
                    material: if (d.selected_material as int) < d.available_material@.len() { Some(d.selected_material) } else { None },
                })
            } else if cancel_clicked || command is Cancel {
                (DialogResult::Close, CreationRequest::Nothing)
            } else {
                (DialogResult::Continue, CreationRequest::Nothing)
            },
    }
}

impl CreationDetailDialog {
    /// How key presses are read while this window is on top.
    pub fn mode(&self) -> (m: InputMode)
        ensures
            m == InputMode::Dialog,
    {
        InputMode::Dialog
    }


    /// Whether the recipe's lists agree and the rows are those of its
    /// ingredients.
    pub open spec fn wf(&self) -> bool {
        &&& self.recipe.groups@.len() == self.recipe.ingredients@.len()
        &&& self.rows@.len() == self.recipe.ingredients@.len()
    }

    /// The detail dialog at `rect` of recipe `recipe` (at `recipe_index`)
    /// of creation kind `kind`, whose name is `kind_text`. The player has
    /// `available_material`; `found_facility` is the name of the facility
    /// found for the recipe (if it needs one and one was found);
    /// `required_skill_ok` tells whether the player's skill is enough;
    /// `owned[i]` is the count of the item that ingredient `i` uses with
    /// the first material. The rows are filled as `update` fills them.
    pub fn new(
        t: &TextBundles,
        rect: Rect,
        kind: CreationKind,
        kind_text: &str,
        recipe_index: usize,
        recipe: Recipe,
        available_material: Vec<(String, u32)>,
        found_facility: Option<String>,
        required_skill_ok: bool,
        owned: &Vec<u32>,
    ) -> (d: CreationDetailDialog)
        requires
            recipe.groups@.len() == recipe.ingredients@.len(),
            owned@.len() == recipe.ingredients@.len(),
        ensures
            d.wf(),
            d.rect == rect,
            d.kind == kind,
            d.recipe_index == recipe_index,
            d.recipe == recipe,
            d.selected_material == 0,
            d.available_material@ == available_material@,
            d.available_skill_facility == ((found_facility.is_some() || recipe.facility.is_none()) && required_skill_ok),
            d.facility_ok == (found_facility.is_some() || recipe.facility.is_none()),
            d.facility_label@ == facility_label(*t, recipe.facility, found_facility),
            d.required_skill_ok == required_skill_ok,
            d.required_skill_label@ == lookup(t.ui, "label_text-creation-required_skill"@, no_args()) + " ("@
                + kind_text@ + ": "@ + decimal(recipe.difficulty as nat) + ")"@,
            d.product_name@ == obj_text(*t, recipe.product@),
            d.cancel_button@ == lookup(t.ui, "button_text-creation-cancel"@, no_args()),
            d.enough_ingredients == enough_ingredients(recipe, available_material@, 0, owned@),
            d.start_button.is_some() == (d.enough_ingredients && d.available_skill_facility),
            forall|i: int| 0 <= i < d.rows@.len() ==>
                (opt_view((#[trigger] d.rows@[i]).item), d.rows@[i].name@, d.rows@[i].count@)
                    == ingredient_row(*t, recipe, available_material@, 0, owned@[i], i),
            !d.escape_click,
    {
        let facility_ok = found_facility.is_some() || recipe.facility.is_none();
        let possible = facility_ok && required_skill_ok;
        let label = match &found_facility {
            Some(item) => {
                let mut s = ui_txt(t, "label_text-creation-use-facility");
                push_str(&mut s, ": ");
                push_str(&mut s, item.as_str());
                s
            },
            None => match &recipe.facility {
                Some(name) => {
                    let mut id = String::new();
                    push_str(&mut id, "facility-");
                    push_str(&mut id, name.as_str());
                    let mut s = ui_txt(t, "label_text-creation-required-facility");
                    push_str(&mut s, ": ");
                    let f = misc_txt(t, id.as_str());
                    push_str(&mut s, f.as_str());
                    s
                },
                None => ui_txt(t, "label_text-creation-no-required-facility"),
            },
        };
        let mut skill_label = ui_txt(t, "label_text-creation-required_skill");
        push_str(&mut skill_label, " (");
        push_str(&mut skill_label, kind_text);
        push_str(&mut skill_label, ": ");
        push_decimal(&mut skill_label, recipe.difficulty as u64);
        push_str(&mut skill_label, ")");
        let product_name = obj_txt(t, recipe.product.as_str());
        let mut d = CreationDetailDialog {
            rect,
            kind,
            recipe_index,
            recipe,
            available_material,
            selected_material: 0,
            available_skill_facility: possible,
            product_name,
            rows: Vec::new(),
            start_button: None,
            cancel_button: ui_txt(t, "button_text-creation-cancel"),
            facility_ok,
            facility_label: label,
            enough_ingredients: false,
            enough_ingredients_label: String::new(),
            required_skill_ok,
            required_skill_label: skill_label,
            escape_click: false,
        };
        d.update(t, owned);
        d
    }

    /// The item that each ingredient uses with the selected material
    /// (`None`: no material for its group).
    pub fn ingredient_items(&self) -> (r: Vec<Option<String>>)
        requires
            self.wf(),
        ensures
            r@.len() == self.recipe.ingredients@.len(),
            forall|i: int| 0 <= i < r@.len() ==> opt_view(#[trigger] r@[i])
                == ingredient_item(self.recipe, self.available_material@, self.selected_material as int, i),
    {
        let mut r: Vec<Option<String>> = Vec::new();
        let mut i: usize = 0;
        while i < self.recipe.ingredients.len()
            invariant
                self.wf(),
                i <= self.recipe.ingredients@.len(),
                r@.len() == i,
                forall|k: int| 0 <= k < i ==> opt_view(#[trigger] r@[k])
                    == ingredient_item(self.recipe, self.available_material@, self.selected_material as int, k),
            decreases self.recipe.ingredients@.len() - i,
        {
            let item: Option<String> = match &self.recipe.groups[i] {
                Some(_) => {
                    if self.selected_material < self.available_material.len() {
                        Some(self.available_material[self.selected_material].0.clone())
                    } else {
                        None
                    }
                },
                None => Some(self.recipe.ingredients[i].0.clone()),
            };
            r.push(item);
            i = i + 1;
        }
        r
    }

    /// Fills the rows and the labels; `owned[i]` is the count of the item
    /// that ingredient `i` uses (see `ingredient_items`). The start button
    /// is there when there are enough ingredients and the facility and the
    /// skill needed are there.
    pub fn update(&mut self, t: &TextBundles, owned: &Vec<u32>)
        requires
            old(self).recipe.groups@.len() == old(self).recipe.ingredients@.len(),
            owned@.len() == old(self).recipe.ingredients@.len(),
        ensures
            final(self).wf(),
            final(self).rect == old(self).rect,
            final(self).kind == old(self).kind,
            final(self).recipe_index == old(self).recipe_index,
            final(self).recipe == old(self).recipe,
            final(self).available_material == old(self).available_material,
            final(self).selected_material == old(self).selected_material,
            final(self).available_skill_facility == old(self).available_skill_facility,
            final(self).product_name == old(self).product_name,
            final(self).cancel_button == old(self).cancel_button,
            final(self).facility_ok == old(self).facility_ok,
            final(self).facility_label == old(self).facility_label,
            final(self).required_skill_ok == old(self).required_skill_ok,
            final(self).required_skill_label == old(self).required_skill_label,
            final(self).escape_click == old(self).escape_click,
            final(self).enough_ingredients == enough_ingredients(old(self).recipe, old(self).available_material@, old(self).selected_material as int, owned@),
            final(self).enough_ingredients_label@ == lookup(t.ui,
                if final(self).enough_ingredients { "label_text-creation-enough-ingredients"@ } else { "label_text-creation-not-enough-ingredients"@ },
                no_args()),
            final(self).start_button.is_some() == (final(self).enough_ingredients && old(self).available_skill_facility),
            final(self).start_button matches Some(s) ==> s@ == lookup(t.ui, "button_text-creation-start"@, no_args()),
            forall|i: int| 0 <= i < final(self).rows@.len() ==>
                (opt_view((#[trigger] final(self).rows@[i]).item), final(self).rows@[i].name@, final(self).rows@[i].count@)
                    == ingredient_row(*t, old(self).recipe, old(self).available_material@, old(self).selected_material as int, owned@[i], i),
    {
        let mut rows: Vec<IngredientRow> = Vec::new();
        let mut enough = true;
        let n_ing = self.recipe.ingredients.len();
        let ghost sel = self.selected_material as int;
        let mut i: usize = 0;
        while i < n_ing
            invariant
                n_ing == self.recipe.ingredients@.len(),
                self.recipe.groups@.len() == n_ing,
                owned@.len() == n_ing,
                sel == self.selected_material as int,
                i <= n_ing,
                rows@.len() == i,
                enough == first_ok(self.recipe, self.available_material@, sel, owned@, i as int),
                forall|k: int| 0 <= k < i ==>
                    (opt_view((#[trigger] rows@[k]).item), rows@[k].name@, rows@[k].count@)
                        == ingredient_row(*t, self.recipe, self.available_material@, sel, owned@[k], k),
                *self == *old(self),
            decreases n_ing - i,
        {
            let n = self.recipe.ingredients[i].1;
            let ghost before = enough;
            let row = match &self.recipe.groups[i] {
                Some(g) => {
                    if self.selected_material < self.available_material.len() {
                        let id = &self.available_material[self.selected_material].0;
                        let mut name = String::new();
                        push_str(&mut name, "(");
                        let gname = material_group(t, g.as_str());
                        push_str(&mut name, gname.as_str());
                        push_str(&mut name, ") ");
                        let iname = obj_txt(t, id.as_str());
                        push_str(&mut name, iname.as_str());
                        let mut count = String::new();
                        push_decimal(&mut count, owned[i] as u64);
                        push_str(&mut count, "/");
                        push_decimal(&mut count, n as u64);
                        if owned[i] < n {
                            enough = false;
                        }
                        IngredientRow { item: Some(id.clone()), name, count }
                    } else {
                        enough = false;
                        let gname = material_group(t, g.as_str());
                        let mut args: TextArgs = Vec::new();
                        args.push((String::from_str("group"), gname));
                        let ghost expected = seq![("group"@, lookup(t.misc, "material_group-"@ + g@, no_args()))];
                        assert(args.deep_view() =~= expected);
                        let name = ui_txt_with_args(t, "list_item_text-creation-no_ingredient", &args);
                        let mut count = String::new();
                        push_str(&mut count, "0/");
                        push_decimal(&mut count, n as u64);
                        IngredientRow { item: None, name, count }
                    }
                },
                None => {
                    let id = &self.recipe.ingredients[i].0;
                    let name = obj_txt(t, id.as_str());
                    let mut count = String::new();
                    push_decimal(&mut count, owned[i] as u64);
                    push_str(&mut count, "/");
                    push_decimal(&mut count, n as u64);
                    if owned[i] < n {
                        enough = false;
                    }
                    IngredientRow { item: Some(id.clone()), name, count }
                },
            };
            rows.push(row);
            proof {
                assert(enough == (before && ingredient_item(self.recipe, self.available_material@, sel, i as int).is_some()
                    && owned@[i as int] >= self.recipe.ingredients@[i as int].1));
            }
            i = i + 1;
        }
        proof { lemma_first_ok(self.recipe, self.available_material@, sel, owned@, n_ing as int); }
        self.rows = rows;
        self.enough_ingredients = enough;
        self.enough_ingredients_label = if enough {
            ui_txt(t, "label_text-creation-enough-ingredients")
        } else {
            ui_txt(t, "label_text-creation-not-enough-ingredients")
        };
        self.start_button = if enough && self.available_skill_facility {
            Some(ui_txt(t, "button_text-creation-start"))
        } else {
            None
        };
    }

    /// Takes a command; `response` is the ingredient list's response,
    /// `start_clicked` and `cancel_clicked` tell whether the buttons were
    /// clicked. A click outside closes the dialog and passes the command
    /// on. Choosing a material group's ingredient selects the next
    /// available material (after the last, the first) and asks to update
    /// the dialog. The start button, when there, starts the creation with
    /// the selected material and closes all dialogs; the cancel button and
    /// Cancel close the dialog.
    pub fn process_command<W, G>(
        &mut self,
        command: &Command,
        response: Option<ListResponse>,
        start_clicked: bool,
        cancel_clicked: bool,
    ) -> (r: (DialogResult<W, G>, CreationRequest))
        requires
            old(self).wf(),
            response matches Some(ListResponse::Select(i)) ==> (i as int) < old(self).recipe.ingredients@.len(),
        ensures
            final(self).wf(),
            final(self).rows == old(self).rows,
            final(self).recipe == old(self).recipe,
            final(self).available_material == old(self).available_material,
            final(self).escape_click == escape_click_after(old(self).escape_click, old(self).rect, *command, false),
            final(self).rect == old(self).rect,
            final(self).kind == old(self).kind,
            final(self).recipe_index == old(self).recipe_index,
            final(self).start_button == old(self).start_button,
            r == detail_outcome::<W, G>(*old(self), *command, response, start_clicked, cancel_clicked),
            final(self).selected_material == detail_selected(*old(self), *command, response),
    {
        if let Some(c) = check_escape_click(&mut self.escape_click, self.rect, command, true) {
            return (c, CreationRequest::Nothing);
        }
        if let Some(ListResponse::Select(i)) = response {
            if self.recipe.groups[i as usize].is_none() {
                return (DialogResult::Continue, CreationRequest::Nothing);
            }
            let len = self.available_material.len();
            if len == 0 || self.selected_material >= len - 1 {
                self.selected_material = 0;
            } else {
                self.selected_material = self.selected_material + 1;
            }
            return (DialogResult::Continue, CreationRequest::UpdateDetail);
        }
        if self.start_button.is_some() && start_clicked {
            let material: Option<usize> = if self.selected_material < self.available_material.len() {
                Some(self.selected_material)
            } else {
                None
            };
            return (DialogResult::CloseAll, CreationRequest::StartCreation {
                kind: self.kind,
                recipe_index: self.recipe_index,
                material,
            });
        }
        if cancel_clicked || command.is_cancel() {
            return (DialogResult::Close, CreationRequest::Nothing);
        }
        (DialogResult::Continue, CreationRequest::Nothing)
    }
}

/// The window that lists the recipes of a creation kind.
pub struct CreationWindow {
    pub rect: Rect,
    pub kind: CreationKind,
    /// The products of the recipes listed, by row.
    pub products: Vec<String>,
    /// The names of the products, by row.
    pub names: Vec<String>,
    pub detail_dialog: Option<CreationDetailDialog>,
    pub escape_click: bool,
}

impl CreationWindow {
    /// How key presses are read while this window is on top.
    pub fn mode(&self) -> (m: InputMode)
        ensures
            m == InputMode::Dialog,
    {
        InputMode::Dialog
    }


    /// The window at `rect` listing the recipes of kind `kind` that make
    /// `products`.
    pub fn new(t: &TextBundles, rect: Rect, kind: CreationKind, products: Vec<String>) -> (w: CreationWindow)
        ensures
            w.rect == rect,
            w.kind == kind,
            w.products@ == products@,
            w.names.deep_view() == Seq::new(products@.len(), |i: int| obj_text(*t, products@[i]@)),
            w.detail_dialog.is_none(),
            !w.escape_click,
    {
        let mut w = CreationWindow { rect, kind, products: Vec::new(), names: Vec::new(), detail_dialog: None, escape_click: false };
        w.update(t, kind, products);
        w
    }

    /// Lists the recipes of kind `kind` that make `products`.
    pub fn update(&mut self, t: &TextBundles, kind: CreationKind, products: Vec<String>)
        ensures
            final(self).rect == old(self).rect,
            final(self).kind == kind,
            final(self).products@ == products@,
            final(self).names.deep_view() == Seq::new(products@.len(), |i: int| obj_text(*t, products@[i]@)),
            final(self).detail_dialog == old(self).detail_dialog,
            final(self).escape_click == old(self).escape_click,
    {
        let mut names: Vec<String> = Vec::new();
        let mut i: usize = 0;
        while i < products.len()
            invariant
                i <= products@.len(),
                names.deep_view() == Seq::new(i as nat, |k: int| obj_text(*t, products@[k]@)),
            decreases products@.len() - i,
        {
            let s = obj_txt(t, products[i].as_str());
            let ghost old_n = names.deep_view();
            names.push(s);
            assert(names.deep_view() =~= old_n.push(s@));
            i = i + 1;
            assert(names.deep_view() =~= Seq::new(i as nat, |k: int| obj_text(*t, products@[k]@)));
        }
        self.kind = kind;
        self.products = products;
        self.names = names;
    }

    /// Opens the detail dialog (as `OpenDetail` asked).
    pub fn open_detail(&mut self, d: CreationDetailDialog)
        ensures
            final(self).detail_dialog == Some(d),
            final(self).rect == old(self).rect,
            final(self).kind == old(self).kind,
            final(self).products == old(self).products,
            final(self).escape_click == old(self).escape_click,
    {
        self.detail_dialog = Some(d);
    }

    /// Takes a command. A click outside closes the window and passes the
    /// command on. With the detail dialog open, the dialog takes the
    /// command (with the list's `response` and the buttons' clicks); when
    /// it closes, the window goes on without it. Else choosing a recipe
    /// asks to open its detail dialog, and Cancel closes the window.
    pub fn process_command<W, G>(
        &mut self,
        command: &Command,
        response: Option<ListResponse>,
        start_clicked: bool,
        cancel_clicked: bool,
    ) -> (r: (DialogResult<W, G>, CreationRequest))
        requires
            old(self).detail_dialog matches Some(d) ==> d.wf()
                && (response matches Some(ListResponse::Select(i)) ==> (i as int) < d.recipe.ingredients@.len()),
        ensures
            final(self).rect == old(self).rect,
            final(self).kind == old(self).kind,
            final(self).products == old(self).products,
            final(self).escape_click == escape_click_after(old(self).escape_click, old(self).rect, *command, false),
            final(self).detail_dialog matches Some(d) ==> d.wf(),
            match closer_result::<W, G>(old(self).escape_click, old(self).rect, *command, true, false) {
                Some(c) => r.0 == c && r.1 is Nothing && final(self).detail_dialog == old(self).detail_dialog,
                None => match old(self).detail_dialog {
                    Some(d) => {
                        let a = detail_outcome::<W, G>(d, *command, response, start_clicked, cancel_clicked);
                        if a.0 is Close {
                            r == (DialogResult::<W, G>::Continue, a.1) && final(self).detail_dialog.is_none()
                        } else {
                            r == a && (final(self).detail_dialog matches Some(d2)
                                && d2.selected_material == detail_selected(d, *command, response)
                                && d2.rows == d.rows && d2.recipe == d.recipe)
                        }
                    },
                    None => final(self).detail_dialog.is_none() && match response {
                        Some(ListResponse::Select(i)) => r.0 is Continue && r.1 == CreationRequest::OpenDetail(i as usize),
                        _ => r.1 is Nothing && r.0 == (if *command is Cancel { DialogResult::<W, G>::Close } else { DialogResult::Continue }),
                    },
                },
            },
    {
        if let Some(c) = check_escape_click(&mut self.escape_click, self.rect, command, true) {
            return (c, CreationRequest::Nothing);
        }
        if self.detail_dialog.is_some() {
            let mut d = self.detail_dialog.take().unwrap();
            let (result, request) = d.process_command(command, response, start_clicked, cancel_clicked);
            match result {
                DialogResult::Close => {
                    return (DialogResult::Continue, request);
                },
                _ => {
                    self.detail_dialog = Some(d);
                    return (result, request);
                },
            }
        }
        if let Some(ListResponse::Select(i)) = response {
            return (DialogResult::Continue, CreationRequest::OpenDetail(i as usize));
        }
        if command.is_cancel() { (DialogResult::Close, CreationRequest::Nothing) } else { (DialogResult::Continue, CreationRequest::Nothing) }
    }
}


/// Choosing ingredients keeps the selected material among the available
/// ones.
pub proof fn law_material_selection_in_range(d: CreationDetailDialog, response: Option<ListResponse>)
    requires
        d.wf(),
        (d.selected_material as int) < d.available_material@.len(),
        response matches Some(ListResponse::Select(i)) ==> (i as int) < d.recipe.ingredients@.len(),
    ensures
        (selected_after(d, response) as int) < d.available_material@.len(),
{
}

/// With `n` materials available, choosing a material group's ingredient
/// `n` times in a row comes back to the material selected first.
pub proof fn law_material_cycle(d: CreationDetailDialog, i: u32, steps: nat)
    requires
        d.wf(),
        (i as int) < d.recipe.ingredients@.len(),
        d.recipe.groups@[i as int].is_some(),
        (d.selected_material as int) < d.available_material@.len(),
        steps == d.available_material@.len() - d.selected_material,
        d.available_material@.len() <= usize::MAX,
    ensures
        cycle_selected(d, i, steps) == 0,
    decreases steps,
{
    let d1 = CreationDetailDialog { selected_material: selected_after(d, Some(ListResponse::Select(i))), ..d };
    assert(cycle_selected(d, i, steps) == cycle_selected(d1, i, (steps - 1) as nat));
    if steps > 1 {
        assert(d1.selected_material == d.selected_material + 1);
        law_material_cycle(d1, i, (steps - 1) as nat);
    } else {
        assert(d1.selected_material == 0);
    }
}

/// The material selected after choosing ingredient `i` `steps` times.
pub open spec fn cycle_selected(d: CreationDetailDialog, i: u32, steps: nat) -> usize
    decreases steps,
{
    if steps == 0 {
        d.selected_material
    } else {
        cycle_selected(CreationDetailDialog { selected_material: selected_after(d, Some(ListResponse::Select(i))), ..d }, i, (steps - 1) as nat)
    }
}


/// The members of the creation window group, one per creation kind, in the
/// order of `creation_tab`.
pub fn creation_group_members() -> (r: Vec<MemberInfo>)
    ensures
        member_ids(r@) == seq![
            ("!tab-icon-creation-art"@, "tab_text-creation_art"@),
            ("!tab-icon-creation-construction"@, "tab_text-creation_construction"@),
            ("!tab-icon-creation-cooking"@, "tab_text-creation_cooking"@),
            ("!tab-icon-creation-craft"@, "tab_text-creation_craft"@),
            ("!tab-icon-creation-pharmacy"@, "tab_text-creation_pharmacy"@),
            ("!tab-icon-creation-smith"@, "tab_text-creation_smith"@)
        ],
{
    let mut v: Vec<MemberInfo> = Vec::new();
    v.push(MemberInfo { icon_id: "!tab-icon-creation-art", text_id: "tab_text-creation_art" });
    v.push(MemberInfo { icon_id: "!tab-icon-creation-construction", text_id: "tab_text-creation_construction" });
    v.push(MemberInfo { icon_id: "!tab-icon-creation-cooking", text_id: "tab_text-creation_cooking" });
    v.push(MemberInfo { icon_id: "!tab-icon-creation-craft", text_id: "tab_text-creation_craft" });
    v.push(MemberInfo { icon_id: "!tab-icon-creation-pharmacy", text_id: "tab_text-creation_pharmacy" });
    v.push(MemberInfo { icon_id: "!tab-icon-creation-smith", text_id: "tab_text-creation_smith" });
    assert(member_ids(v@) =~= seq![
            ("!tab-icon-creation-art"@, "tab_text-creation_art"@),
            ("!tab-icon-creation-construction"@, "tab_text-creation_construction"@),
            ("!tab-icon-creation-cooking"@, "tab_text-creation_cooking"@),
            ("!tab-icon-creation-craft"@, "tab_text-creation_craft"@),
            ("!tab-icon-creation-pharmacy"@, "tab_text-creation_pharmacy"@),
            ("!tab-icon-creation-smith"@, "tab_text-creation_smith"@)
        ]);
    v
}

} // verus!
