//! Key maps, and their serialisation to the preset file format: one general
//! section of options, then one section `Board1` to `Board5` for each board,
//! with entries `Key_n`, `Chan_n`, `Col_n` and, where the key type is not 1,
//! `KTyp_n` for each key `n`.
use vstd::prelude::*;
use ini::Ini;
use vstd::string::StringExecFns;
use crate::constants::{
    key_type_code_of, midi_channel_of, note_or_cc_num_of, board_byte, LumatoneKeyFunction,
    LumatoneKeyLocation, RGBColor, KEYS_PER_BOARD,
};
use crate::text::{decimal, hex_byte, lemma_decimal_injective, push_decimal, push_hex_byte};

verus! {

/// `ini::Ini`, a preset file being written. Opaque: what it holds is seen
/// through `ini_entries`.
#[verifier::external_type_specification]
#[verifier::external_body]
pub struct ExIni(Ini);

/// Where an entry of a preset file stands: its section (`None` for the general
/// section) and its key.
pub type IniKey = (Option<Seq<char>>, Seq<char>);

/// The entries of a preset file: for each section and key, the value that a
/// lookup of that key in that section finds.
pub uninterp spec fn ini_entries(conf: Ini) -> Map<IniKey, Seq<char>>;

/// The entries of an empty file.
pub open spec fn no_entries() -> Map<IniKey, Seq<char>> {
    Map::empty()
}

/// The section of an optional name.
pub open spec fn section_of(section: Option<String>) -> Option<Seq<char>> {
    match section {
        Some(s) => Some(s@),
        None => None,
    }
}

/// Relies on `Ini::new`: a new file holds no entry.
#[verifier::external_body]
fn ini_new() -> (r: Ini)
    ensures
        ini_entries(r) == no_entries(),
{
    Ini::new()
}

/// Relies on `Ini::set_to`: it sets `key` to `value` in the first section
/// of that name, creating the section where there is none, and replaces what
/// the key held there.
#[verifier::external_body]
fn ini_set(conf: &mut Ini, section: Option<String>, key: String, value: String)
    ensures
        ini_entries(*final(conf)) == ini_entries(*old(conf)).insert(
            (section_of(section), key@),
            value@,
        ),
{
    conf.set_to(section, key, value)
}

/// What a key does, and its colour.
#[derive(Clone, Copy, Debug, PartialEq, Eq)]
pub struct KeyDefinition {
    pub function: LumatoneKeyFunction,
    pub color: RGBColor,
}

/// Options that apply to the whole device.
#[derive(Clone, Copy, Debug, PartialEq, Eq)]
pub struct GeneralOptions {
    pub after_touch_active: bool,
    pub light_on_key_strokes: bool,
    pub invert_foot_controller: bool,
    pub invert_sustain: bool,
    pub expression_controller_sensitivity: u8,
}

/// Every option off, sensitivity 0.
pub open spec fn default_options() -> GeneralOptions {
    GeneralOptions {
        after_touch_active: false,
        light_on_key_strokes: false,
        invert_foot_controller: false,
        invert_sustain: false,
        expression_controller_sensitivity: 0,
    }
}

impl Default for GeneralOptions {
    /// Every option off, sensitivity 0.
    fn default() -> (r: GeneralOptions)
        ensures
            r == default_options(),
    {
        GeneralOptions {
            after_touch_active: false,
            light_on_key_strokes: false,
            invert_foot_controller: false,
            invert_sustain: false,
            expression_controller_sensitivity: 0,
        }
    }
}

/// Number of key slots in a key map: one for each key of each board address.
pub const KEY_SLOTS: usize = 336;

/// The slot of key `key` on the board with wire byte `board`.
pub open spec fn slot(board: nat, key: nat) -> int {
    (board * 56 + key) as int
}

/// A map from key locations to key definitions, with the options that apply
/// to the whole device.
pub struct LumatoneKeyMap {
    keys: Vec<Option<KeyDefinition>>,
    general: GeneralOptions,
}

/// `slot` tells key locations apart.
proof fn lemma_slot_injective(b1: nat, k1: nat, b2: nat, k2: nat)
    requires
        k1 < 56,
        k2 < 56,
        slot(b1, k1) == slot(b2, k2),
    ensures
        b1 == b2,
        k1 == k2,
{
    assert(b1 == b2 && k1 == k2) by (nonlinear_arith)
        requires
            k1 < 56,
            k2 < 56,
            b1 * 56 + k1 == b2 * 56 + k2,
    ;
}

/// The text of a flag: "1" when set, "0" otherwise.
pub open spec fn flag_text(b: bool) -> Seq<char> {
    if b {
        "1"@
    } else {
        "0"@
    }
}

/// The entries of the general section.
pub open spec fn general_entries(g: GeneralOptions) -> Map<IniKey, Seq<char>> {
    no_entries().insert((None, "AfterTouchActive"@), flag_text(g.after_touch_active)).insert(
        (None, "LightOnKeyStrokes"@),
        flag_text(g.light_on_key_strokes),
    ).insert((None, "InvertFootController"@), flag_text(g.invert_foot_controller)).insert(
        (None, "InvertSustain"@),
        flag_text(g.invert_sustain),
    ).insert(
        (None, "ExprCtrlSensivity"@),
        decimal(g.expression_controller_sensitivity as nat),
    )
}

/// The section of board `b`: `Board` followed by its number.
pub open spec fn board_section(b: nat) -> Option<Seq<char>> {
    Some("Board"@ + decimal(b))
}

/// The six hexadecimal digits of a colour: red, green, blue.
pub open spec fn color_text(c: RGBColor) -> Seq<char> {
    hex_byte(c.0) + hex_byte(c.1) + hex_byte(c.2)
}

/// The entries that key `k` of board `b` contributes: its definition, or,
/// where it has none, the entries of a disabled key.
pub open spec fn key_entries(b: nat, k: nat, def: Option<KeyDefinition>) -> Map<IniKey, Seq<char>> {
    let sec = board_section(b);
    match def {
        Some(d) => {
            let m = no_entries().insert(
                (sec, "Key_"@ + decimal(k)),
                decimal(note_or_cc_num_of(d.function) as nat),
            ).insert((sec, "Chan_"@ + decimal(k)), decimal(midi_channel_of(d.function))).insert(
                (sec, "Col_"@ + decimal(k)),
                color_text(d.color),
            );
            if key_type_code_of(d.function) != 1 {
                m.insert((sec, "KTyp_"@ + decimal(k)), decimal(key_type_code_of(d.function) as nat))
            } else {
                m
            }
        },
        None => no_entries().insert((sec, "Key_"@ + decimal(k)), "0"@).insert(
            (sec, "Chan_"@ + decimal(k)),
            "1"@,
        ).insert((sec, "Col_"@ + decimal(k)), "000000"@).insert(
            (sec, "KTyp_"@ + decimal(k)),
            "4"@,
        ),
    }
}

/// The definition of key `k` on board `b`, if it has one.
pub open spec fn key_lookup(keys: Map<(nat, nat), KeyDefinition>, b: nat, k: nat) -> Option<
    KeyDefinition,
> {
    if keys.contains_key((b, k)) {
        Some(keys[(b, k)])
    } else {
        None
    }
}

/// The entries of keys `0..n` of board `b`.
pub open spec fn board_entries(keys: Map<(nat, nat), KeyDefinition>, b: nat, n: nat) -> Map<
    IniKey,
    Seq<char>,
>
    decreases n,
{
    if n == 0 {
        no_entries()
    } else {
        board_entries(keys, b, (n - 1) as nat).union_prefer_right(
            key_entries(b, (n - 1) as nat, key_lookup(keys, b, (n - 1) as nat)),
        )
    }
}

/// The entries of a preset file: the general section, then boards `1..=nb`,
/// each with all its keys.
pub open spec fn keymap_entries(
    keys: Map<(nat, nat), KeyDefinition>,
    g: GeneralOptions,
    nb: nat,
) -> Map<IniKey, Seq<char>>
    decreases nb,
{
    if nb == 0 {
        general_entries(g)
    } else {
        keymap_entries(keys, g, (nb - 1) as nat).union_prefer_right(
            board_entries(keys, nb, KEYS_PER_BOARD as nat),
        )
    }
}

/// Whether `s` names an entry of key `k`: one of its four prefixes, then its
/// number.
pub open spec fn is_key_field(s: Seq<char>, k: nat) -> bool {
    ||| s == "Key_"@ + decimal(k)
    ||| s == "Chan_"@ + decimal(k)
    ||| s == "Col_"@ + decimal(k)
    ||| s == "KTyp_"@ + decimal(k)
}

/// `a + x == a + y` only where `x == y`.
proof fn lemma_concat_cancel(a: Seq<char>, x: Seq<char>, y: Seq<char>)
    requires
        a + x == a + y,
    ensures
        x == y,
{
    assert(x =~= (a + x).subrange(a.len() as int, (a + x).len() as int));
    assert(y =~= (a + y).subrange(a.len() as int, (a + y).len() as int));
}

/// Entry names of distinct keys are distinct, and so are names with distinct
/// prefixes.
proof fn lemma_key_fields_distinct(s: Seq<char>, k1: nat, k2: nat)
    requires
        is_key_field(s, k1),
        is_key_field(s, k2),
    ensures
        k1 == k2,
{
    reveal_strlit("Key_");
    reveal_strlit("Chan_");
    reveal_strlit("Col_");
    reveal_strlit("KTyp_");
    let prefixes = seq!["Key_"@, "Chan_"@, "Col_"@, "KTyp_"@];
    let i = choose|i: int| 0 <= i < 4 && s == prefixes[i] + decimal(k1);
    let j = choose|j: int| 0 <= j < 4 && s == prefixes[j] + decimal(k2);
    assert(s[0] == prefixes[i][0] && s[1] == prefixes[i][1]);
    assert(s[0] == prefixes[j][0] && s[1] == prefixes[j][1]);
    assert(prefixes[i] == prefixes[j]);
    lemma_concat_cancel(prefixes[i], decimal(k1), decimal(k2));
    lemma_decimal_injective(k1, k2);
}

/// The four entry names of a key are distinct.
proof fn lemma_key_field_names_differ(k: nat)
    ensures
        "Key_"@ + decimal(k) != "Chan_"@ + decimal(k),
        "Key_"@ + decimal(k) != "Col_"@ + decimal(k),
        "Key_"@ + decimal(k) != "KTyp_"@ + decimal(k),
        "Chan_"@ + decimal(k) != "Col_"@ + decimal(k),
        "Chan_"@ + decimal(k) != "KTyp_"@ + decimal(k),
        "Col_"@ + decimal(k) != "KTyp_"@ + decimal(k),
{
    reveal_strlit("Key_");
    reveal_strlit("Chan_");
    reveal_strlit("Col_");
    reveal_strlit("KTyp_");
    let d = decimal(k);
    assert(("Key_"@ + d)[0] == 'K' && ("Key_"@ + d)[1] == 'e');
    assert(("Chan_"@ + d)[0] == 'C' && ("Chan_"@ + d)[1] == 'h');
    assert(("Col_"@ + d)[0] == 'C' && ("Col_"@ + d)[1] == 'o');
    assert(("KTyp_"@ + d)[0] == 'K' && ("KTyp_"@ + d)[1] == 'T');
}

/// Distinct boards have distinct sections.
proof fn lemma_board_sections_distinct(b1: nat, b2: nat)
    requires
        board_section(b1) == board_section(b2),
    ensures
        b1 == b2,
{
    lemma_concat_cancel("Board"@, decimal(b1), decimal(b2));
    lemma_decimal_injective(b1, b2);
}

/// Every entry of a key stands in its board's section under one of its names.
proof fn lemma_key_entries_domain(b: nat, k: nat, def: Option<KeyDefinition>, x: IniKey)
    requires
        key_entries(b, k, def).contains_key(x),
    ensures
        x.0 == board_section(b),
        is_key_field(x.1, k),
{
}

/// Every entry of a board stands in that board's section.
proof fn lemma_board_entries_section(
    keys: Map<(nat, nat), KeyDefinition>,
    b: nat,
    n: nat,
    x: IniKey,
)
    requires
        board_entries(keys, b, n).contains_key(x),
    ensures
        x.0 == board_section(b),
    decreases n,
{
    if n > 0 {
        let last = key_entries(b, (n - 1) as nat, key_lookup(keys, b, (n - 1) as nat));
        if last.contains_key(x) {
            lemma_key_entries_domain(b, (n - 1) as nat, key_lookup(keys, b, (n - 1) as nat), x);
        } else {
            lemma_board_entries_section(keys, b, (n - 1) as nat, x);
        }
    }
}

/// Among the entries of keys `0..n` of a board, an entry of key `k < n` is
/// what key `k` itself wrote, where it wrote it.
proof fn lemma_board_entries_lookup(
    keys: Map<(nat, nat), KeyDefinition>,
    b: nat,
    n: nat,
    k: nat,
    x: IniKey,
)
    requires
        k < n,
        x.0 == board_section(b),
        is_key_field(x.1, k),
        key_entries(b, k, key_lookup(keys, b, k)).contains_key(x),
    ensures
        board_entries(keys, b, n).contains_key(x),
        board_entries(keys, b, n)[x] == key_entries(b, k, key_lookup(keys, b, k))[x],
    decreases n,
{
    if n - 1 > k {
        let last = key_entries(b, (n - 1) as nat, key_lookup(keys, b, (n - 1) as nat));
        if last.contains_key(x) {
            lemma_key_entries_domain(b, (n - 1) as nat, key_lookup(keys, b, (n - 1) as nat), x);
            lemma_key_fields_distinct(x.1, k, (n - 1) as nat);
        }
        lemma_board_entries_lookup(keys, b, (n - 1) as nat, k, x);
    }
}

/// In a whole file, an entry of key `k` of board `b` is what that key wrote,
/// where it wrote it.
proof fn lemma_keymap_entries_lookup(
    keys: Map<(nat, nat), KeyDefinition>,
    g: GeneralOptions,
    nb: nat,
    b: nat,
    k: nat,
    x: IniKey,
)
    requires
        1 <= b <= nb,
        k < KEYS_PER_BOARD,
        x.0 == board_section(b),
        is_key_field(x.1, k),
        key_entries(b, k, key_lookup(keys, b, k)).contains_key(x),
    ensures
        keymap_entries(keys, g, nb).contains_key(x),
        keymap_entries(keys, g, nb)[x] == key_entries(b, k, key_lookup(keys, b, k))[x],
    decreases nb,
{
    lemma_board_entries_lookup(keys, b, KEYS_PER_BOARD as nat, k, x);
    if nb > b {
        if board_entries(keys, nb, KEYS_PER_BOARD as nat).contains_key(x) {
            lemma_board_entries_section(keys, nb, KEYS_PER_BOARD as nat, x);
            lemma_board_sections_distinct(b, nb);
        }
        lemma_keymap_entries_lookup(keys, g, (nb - 1) as nat, b, k, x);
    }
}

/// Whether `e` holds, in section `sec`, the entries of a disabled key `k`:
/// `Key` 0, `Chan` 1, `Col` 000000 and `KTyp` 4.
pub open spec fn written_disabled(e: Map<IniKey, Seq<char>>, sec: Option<Seq<char>>, k: nat) -> bool {
    &&& e.contains_key((sec, "Key_"@ + decimal(k)))
    &&& e[(sec, "Key_"@ + decimal(k))] == "0"@
    &&& e.contains_key((sec, "Chan_"@ + decimal(k)))
    &&& e[(sec, "Chan_"@ + decimal(k))] == "1"@
    &&& e.contains_key((sec, "Col_"@ + decimal(k)))
    &&& e[(sec, "Col_"@ + decimal(k))] == "000000"@
    &&& e.contains_key((sec, "KTyp_"@ + decimal(k)))
    &&& e[(sec, "KTyp_"@ + decimal(k))] == "4"@
}

/// A board with no defined key is written with every key disabled: for each
/// key index in range, `Key` 0, `Chan` 1, `Col` 000000 and `KTyp` 4.
pub proof fn lemma_undefined_keys_written_disabled(
    keys: Map<(nat, nat), KeyDefinition>,
    g: GeneralOptions,
    b: nat,
)
    requires
        1 <= b <= 5,
        forall|k: nat| !keys.contains_key((b, k)),
    ensures
        forall|k: nat|
            k < KEYS_PER_BOARD ==> #[trigger] written_disabled(
                keymap_entries(keys, g, 5),
                board_section(b),
                k,
            ),
{
    let sec = board_section(b);
    assert forall|k: nat| k < KEYS_PER_BOARD implies #[trigger] written_disabled(
        keymap_entries(keys, g, 5),
        sec,
        k,
    ) by {
        lemma_key_field_names_differ(k);
        assert(key_lookup(keys, b, k) is None);
        lemma_keymap_entries_lookup(keys, g, 5, b, k, (sec, "Key_"@ + decimal(k)));
        lemma_keymap_entries_lookup(keys, g, 5, b, k, (sec, "Chan_"@ + decimal(k)));
        lemma_keymap_entries_lookup(keys, g, 5, b, k, (sec, "Col_"@ + decimal(k)));
        lemma_keymap_entries_lookup(keys, g, 5, b, k, (sec, "KTyp_"@ + decimal(k)));
    }
}

/// The text "1" or "0" of a flag.
fn flag_string(b: bool) -> (r: String)
    ensures
        r@ == flag_text(b),
{
    if b {
        String::from_str("1")
    } else {
        String::from_str("0")
    }
}

/// `prefix` followed by the decimal text of `n`.
fn numbered_name(prefix: &str, n: u8) -> (r: String)
    ensures
        r@ == prefix@ + decimal(n as nat),
{
    let mut s = String::from_str(prefix);
    push_decimal(&mut s, n);
    s
}

/// Writes the general section's entries.
fn set_general_entries(conf: &mut Ini, g: GeneralOptions)
    ensures
        ini_entries(*final(conf)) == ini_entries(*old(conf)).union_prefer_right(general_entries(g)),
{
    ini_set(conf, None, String::from_str("AfterTouchActive"), flag_string(g.after_touch_active));
    ini_set(conf, None, String::from_str("LightOnKeyStrokes"), flag_string(g.light_on_key_strokes));
    ini_set(
        conf,
        None,
        String::from_str("InvertFootController"),
        flag_string(g.invert_foot_controller),
    );
    ini_set(conf, None, String::from_str("InvertSustain"), flag_string(g.invert_sustain));
    ini_set(
        conf,
        None,
        String::from_str("ExprCtrlSensivity"),
        crate::text::decimal_string(g.expression_controller_sensitivity),
    );
    assert(ini_entries(*conf) =~= ini_entries(*old(conf)).union_prefer_right(general_entries(g)));
}

/// The six hexadecimal digits of a colour.
fn color_string(c: RGBColor) -> (r: String)
    ensures
        r@ == color_text(c),
{
    let mut s = String::new();
    push_hex_byte(&mut s, c.0);
    push_hex_byte(&mut s, c.1);
    push_hex_byte(&mut s, c.2);
    assert(s@ =~= color_text(c));
    s
}

/// Writes the entries of key `k` of board `b`.
fn set_key_entries(conf: &mut Ini, b: u8, k: u8, def: Option<KeyDefinition>)
    ensures
        ini_entries(*final(conf)) == ini_entries(*old(conf)).union_prefer_right(
            key_entries(b as nat, k as nat, def),
        ),
{
    match def {
        Some(d) => {
            let note = d.function.note_or_cc_num();
            let chan = d.function.midi_channel_byte();
            let key_type = d.function.key_type_code();
            ini_set(
                conf,
                Some(numbered_name("Board", b)),
                numbered_name("Key_", k),
                crate::text::decimal_string(note),
            );
            ini_set(
                conf,
                Some(numbered_name("Board", b)),
                numbered_name("Chan_", k),
                crate::text::decimal_string(chan),
            );
            ini_set(
                conf,
                Some(numbered_name("Board", b)),
                numbered_name("Col_", k),
                color_string(d.color),
            );
            if key_type != 1 {
                ini_set(
                    conf,
                    Some(numbered_name("Board", b)),
                    numbered_name("KTyp_", k),
                    crate::text::decimal_string(key_type),
                );
            }
        },
        None => {
            ini_set(
                conf,
                Some(numbered_name("Board", b)),
                numbered_name("Key_", k),
                String::from_str("0"),
            );
            ini_set(
                conf,
                Some(numbered_name("Board", b)),
                numbered_name("Chan_", k),
                String::from_str("1"),
            );
            ini_set(
                conf,
                Some(numbered_name("Board", b)),
                numbered_name("Col_", k),
                String::from_str("000000"),
            );
            ini_set(
                conf,
                Some(numbered_name("Board", b)),
                numbered_name("KTyp_", k),
                String::from_str("4"),
            );
        },
    }
    assert(ini_entries(*conf) =~= ini_entries(*old(conf)).union_prefer_right(
        key_entries(b as nat, k as nat, def),
    ));
}

impl LumatoneKeyMap {
    /// The defined keys, by board wire byte and key index.
    pub closed spec fn view(&self) -> Map<(nat, nat), KeyDefinition> {
        Map::new(
            |l: (nat, nat)| l.0 < 6 && l.1 < 56 && self.keys@[slot(l.0, l.1)] is Some,
            |l: (nat, nat)| self.keys@[slot(l.0, l.1)]->Some_0,
        )
    }

    /// The options that apply to the whole device.
    pub closed spec fn general(&self) -> GeneralOptions {
        self.general
    }

    /// Whether the key table has a slot for each key location.
    pub closed spec fn wf(&self) -> bool {
        self.keys@.len() == KEY_SLOTS
    }

    /// An empty key map with default options.
    pub fn new() -> (r: LumatoneKeyMap)
        ensures
            r.wf(),
            r.view() == Map::<(nat, nat), KeyDefinition>::empty(),
            r.general() == default_options(),
    {
        let mut keys: Vec<Option<KeyDefinition>> = Vec::new();
        let mut i: usize = 0;
        while i < KEY_SLOTS
            invariant
                i <= KEY_SLOTS,
                keys@.len() == i,
                forall|j: int| 0 <= j < i ==> keys@[j] is None,
            decreases KEY_SLOTS - i,
        {
            keys.push(None);
            i += 1;
        }
        let r = LumatoneKeyMap { keys, general: GeneralOptions::default() };
        assert(r.view() =~= Map::<(nat, nat), KeyDefinition>::empty());
        r
    }

    /// Defines the key at `location`, replacing any earlier definition.
    pub fn set_key<'a>(&'a mut self, location: LumatoneKeyLocation, def: KeyDefinition) -> (r:
        &'a mut LumatoneKeyMap)
        requires
            old(self).wf(),
        ensures
            (*r).wf(),
            (*r).view() == old(self).view().insert(
                (board_byte(location.0) as nat, location.1.view()),
                def,
            ),
            (*r).general() == old(self).general(),
            *final(self) == *final(r),
    {
        let b = location.board_index().as_u8();
        let k = location.key_index().get();
        let i = (b as usize) * 56 + (k as usize);
        self.keys.set(i, Some(def));
        proof {
            let key = (b as nat, k as nat);
            assert forall|l: (nat, nat)| l.0 < 6 && l.1 < 56 && slot(l.0, l.1) == slot(key.0, key.1)
                implies l == key by {
                lemma_slot_injective(l.0, l.1, key.0, key.1);
            }
            assert(self.view() =~= old(self).view().insert(key, def));
        }
        self
    }

    /// The preset file of this key map: the general options, then, for each of
    /// the five key boards, the entries of every key, a key without definition
    /// written as disabled.
    pub fn as_ini(&self) -> (r: Ini)
        requires
            self.wf(),
        ensures
            ini_entries(r) == keymap_entries(self.view(), self.general(), 5),
    {
        let mut conf = ini_new();
        set_general_entries(&mut conf, self.general);
        assert(ini_entries(conf) =~= keymap_entries(self.view(), self.general(), 0));
        let mut b: u8 = 1;
        while b <= 5
            invariant
                1 <= b <= 6,
                self.wf(),
                ini_entries(conf) == keymap_entries(self.view(), self.general(), (b - 1) as nat),
            decreases 6 - b,
        {
            let ghost before = ini_entries(conf);
            let mut k: u8 = 0;
            while k < KEYS_PER_BOARD
                invariant
                    1 <= b <= 5,
                    k <= KEYS_PER_BOARD,
                    self.wf(),
                    ini_entries(conf) == before.union_prefer_right(
                        board_entries(self.view(), b as nat, k as nat),
                    ),
                decreases KEYS_PER_BOARD - k,
            {
                let def = self.keys[(b as usize) * 56 + (k as usize)];
                assert(def == key_lookup(self.view(), b as nat, k as nat));
                set_key_entries(&mut conf, b, k, def);
                assert(ini_entries(conf) =~= before.union_prefer_right(
                    board_entries(self.view(), b as nat, (k + 1) as nat),
                ));
                k += 1;
            }
            b += 1;
        }
        conf
    }

    /// Replaces the options that apply to the whole device.
    pub fn set_global_options<'a>(&'a mut self, opts: GeneralOptions) -> (r: &'a mut LumatoneKeyMap)
        requires
            old(self).wf(),
        ensures
            (*r).wf(),
            (*r).view() == old(self).view(),
            (*r).general() == opts,
            *final(self) == *final(r),
    {
        self.general = opts;
        self
    }
}

} // verus!
