//! The names that the control centre shows, and the options that it offers.
use vstd::prelude::*;

use crate::text::{around, decimal, decimal_text, joined};
use crate::types::{
    BreathConfig, ChargeIntent, FanIndex, FanMode, KeyboardBacklightLevel, PowerLedMode,
    PowerProfile,
};

verus! {

/// The name of a fan.
pub open spec fn fan_text(index: FanIndex) -> Seq<char> {
    match index {
        FanIndex::Cpu => "CPU"@,
        FanIndex::Gpu => "GPU / 辅助"@,
    }
}

/// A level out of 255, as a custom setting.
pub open spec fn custom_text(value: u8) -> Seq<char> {
    "自定义（"@ + decimal(value as nat) + "/255）"@
}

/// The name of a fan mode.
pub open spec fn fan_mode_text(mode: FanMode) -> Seq<char> {
    match mode {
        FanMode::Auto => "自动"@,
        FanMode::Full => "全速"@,
        FanMode::Turbo => "Turbo（高风险）"@,
        FanMode::Custom(value) => custom_text(value),
    }
}

/// Whether the user is asked again before a fan is driven in this mode: at speeds beyond the
/// limits, and when the fan would stand still.
pub open spec fn is_risky(mode: FanMode) -> bool {
    mode is Turbo || mode == FanMode::Custom(0)
}

/// The name of a power profile.
pub open spec fn power_profile_text(profile: PowerProfile) -> Seq<char> {
    match profile {
        PowerProfile::Silent => "安静"@,
        PowerProfile::Default => "默认"@,
        PowerProfile::Performance => "性能"@,
    }
}

/// The name of a keyboard backlight level.
pub open spec fn keyboard_text(level: KeyboardBacklightLevel) -> Seq<char> {
    match level {
        KeyboardBacklightLevel::Off => "关闭"@,
        KeyboardBacklightLevel::Low => "低"@,
        KeyboardBacklightLevel::Medium => "中"@,
        KeyboardBacklightLevel::High => "高"@,
        KeyboardBacklightLevel::Custom(value) => custom_text(value),
    }
}

/// The name of a mode of the LED ring.
pub open spec fn led_text(mode: PowerLedMode) -> Seq<char> {
    match mode {
        PowerLedMode::Auto => "自动"@,
        PowerLedMode::Custom(value) => "静态亮度（"@ + decimal(value as nat) + "/255）"@,
        PowerLedMode::Animation(_) => "硬件灯效"@,
    }
}

/// Two percentages, from one to the other.
pub open spec fn percents(min: u8, max: u8) -> Seq<char> {
    decimal(min as nat) + "%–"@ + decimal(max as nat) + "%"@
}

/// The name of a charge intent.
pub open spec fn charge_text(intent: ChargeIntent) -> Seq<char> {
    match intent {
        ChargeIntent::Full => "完全充电"@,
        ChargeIntent::Preserve(None) => "固件电池保护"@,
        ChargeIntent::Preserve(Some(range)) => "保护阈值 "@ + percents(range.min, range.max),
        ChargeIntent::Freeze => "冻结充电"@,
    }
}

/// The name of a fan.
pub fn fan_name(index: FanIndex) -> (name: &'static str)
    ensures
        name@ == fan_text(index),
{
    match index {
        FanIndex::Cpu => "CPU",
        FanIndex::Gpu => "GPU / 辅助",
    }
}

fn custom_label(value: u8) -> (label: String)
    ensures
        label@ == custom_text(value),
{
    around("自定义（", decimal_text(value as u64), "/255）")
}

/// The name of a fan mode.
pub fn fan_mode_label(mode: FanMode) -> (label: String)
    ensures
        label@ == fan_mode_text(mode),
{
    match mode {
        FanMode::Auto => "自动".to_owned(),
        FanMode::Full => "全速".to_owned(),
        FanMode::Turbo => "Turbo（高风险）".to_owned(),
        FanMode::Custom(value) => custom_label(value),
    }
}

/// Whether the user is asked again before a fan is driven in this mode.
pub fn fan_change_needs_confirmation(mode: FanMode) -> (needed: bool)
    ensures
        needed == is_risky(mode),
{
    match mode {
        FanMode::Turbo => true,
        FanMode::Custom(value) => value == 0,
        FanMode::Auto | FanMode::Full => false,
    }
}

/// The name of a power profile.
pub fn power_profile_label(profile: PowerProfile) -> (label: &'static str)
    ensures
        label@ == power_profile_text(profile),
{
    match profile {
        PowerProfile::Silent => "安静",
        PowerProfile::Default => "默认",
        PowerProfile::Performance => "性能",
    }
}

/// The name of a keyboard backlight level.
pub fn keyboard_backlight_label(level: KeyboardBacklightLevel) -> (label: String)
    ensures
        label@ == keyboard_text(level),
{
    match level {
        KeyboardBacklightLevel::Off => "关闭".to_owned(),
        KeyboardBacklightLevel::Low => "低".to_owned(),
        KeyboardBacklightLevel::Medium => "中".to_owned(),
        KeyboardBacklightLevel::High => "高".to_owned(),
        KeyboardBacklightLevel::Custom(value) => custom_label(value),
    }
}

/// The name of a mode of the LED ring.
pub fn led_mode_label(mode: PowerLedMode) -> (label: String)
    ensures
        label@ == led_text(mode),
{
    match mode {
        PowerLedMode::Auto => "自动".to_owned(),
        PowerLedMode::Custom(value) => around("静态亮度（", decimal_text(value as u64), "/255）"),
        PowerLedMode::Animation(_) => "硬件灯效".to_owned(),
    }
}

/// Two percentages, from one to the other.
pub fn percent_range(min: u8, max: u8) -> (text: String)
    ensures
        text@ == percents(min, max),
{
    let mut text = decimal_text(min as u64);
    text.append("%–");
    text.append(decimal_text(max as u64).as_str());
    text.append("%");
    text
}

/// The name of a charge intent.
pub fn charge_intent_label(intent: ChargeIntent) -> (label: String)
    ensures
        label@ == charge_text(intent),
{
    match intent {
        ChargeIntent::Full => "完全充电".to_owned(),
        ChargeIntent::Preserve(None) => "固件电池保护".to_owned(),
        ChargeIntent::Preserve(Some(range)) => joined(
            "保护阈值 ",
            percent_range(range.min, range.max).as_str(),
        ),
        ChargeIntent::Freeze => "冻结充电".to_owned(),
    }
}

/// A charge option as its name and what it stands for.
pub open spec fn named(option: (String, ChargeIntent)) -> (Seq<char>, ChargeIntent) {
    (option.0@, option.1)
}

/// Charge options as their names and what they stand for.
pub open spec fn options_of(options: Seq<(String, ChargeIntent)>) -> Seq<(Seq<char>, ChargeIntent)> {
    Seq::new(options.len(), |i: int| named(options[i]))
}

/// Whether an intent is among the options.
pub open spec fn offers(options: Seq<(Seq<char>, ChargeIntent)>, intent: ChargeIntent) -> bool {
    exists|i: int| 0 <= i < options.len() && (#[trigger] options[i]).1 == intent
}

/// The options with one more at the end, unless its intent is already among them.
pub open spec fn with_option(
    options: Seq<(Seq<char>, ChargeIntent)>,
    title: Seq<char>,
    intent: ChargeIntent,
) -> Seq<(Seq<char>, ChargeIntent)> {
    if offers(options, intent) {
        options
    } else {
        options.push((title, intent))
    }
}

/// Adds an option, unless its intent is already among them.
pub fn append_charge_option(
    options: &mut Vec<(String, ChargeIntent)>,
    title: &str,
    intent: ChargeIntent,
)
    ensures
        options_of(final(options)@) == with_option(options_of(old(options)@), title@, intent),
{
    let ghost before = options_of(options@);
    let mut i: usize = 0;
    while i < options.len()
        invariant
            i <= options@.len(),
            *options == *old(options),
            before == options_of(old(options)@),
            forall|j: int| 0 <= j < i ==> (#[trigger] before[j]).1 != intent,
        decreases options.len() - i,
    {
        if options[i].1 == intent {
            assert(before[i as int].1 == intent);
            return ;
        }
        assert(before[i as int].1 == options@[i as int].1);
        i = i + 1;
    }
    options.push((title.to_owned(), intent));
    proof {
        assert(!offers(before, intent));
        assert(options_of(options@) =~= before.push((title@, intent)));
    }
}

/// No intent is offered twice, if none was before.
pub proof fn law_no_intent_is_offered_twice(
    options: Seq<(Seq<char>, ChargeIntent)>,
    title: Seq<char>,
    intent: ChargeIntent,
)
    requires
        forall|i: int, j: int|
            0 <= i < j < options.len() ==> (#[trigger] options[i]).1 != (#[trigger] options[j]).1,
    ensures
        ({
            let longer = with_option(options, title, intent);
            &&& offers(longer, intent)
            &&& forall|i: int, j: int|
                0 <= i < j < longer.len() ==> (#[trigger] longer[i]).1 != (#[trigger] longer[j]).1
        }),
{
    let longer = with_option(options, title, intent);
    if !offers(options, intent) {
        assert(longer[options.len() as int].1 == intent);
    }
}

/// The effects of the LED ring, with the names under which they are offered.
pub open spec fn effects() -> Seq<(Seq<char>, BreathConfig)> {
    seq![
        ("柔和"@, BreathConfig::Smooth),
        ("睡眠"@, BreathConfig::Sleep),
        ("提醒"@, BreathConfig::Alert),
        ("禅意"@, BreathConfig::Zen),
        ("脉冲"@, BreathConfig::Ping),
        ("活力"@, BreathConfig::Energetic),
        ("警告"@, BreathConfig::Warning),
        ("真空"@, BreathConfig::Vacuum),
        ("紧急"@, BreathConfig::Panic),
        ("声呐"@, BreathConfig::Sonar),
    ]
}

/// The effects of the LED ring, with the names under which they are offered.
pub fn led_effects() -> (list: [(&'static str, BreathConfig); 10])
    ensures
        list@.len() == effects().len(),
        forall|i: int|
            0 <= i < list@.len() ==> (#[trigger] list@[i]).0@ == effects()[i].0 && list@[i].1
                == effects()[i].1,
{
    [
        ("柔和", BreathConfig::Smooth),
        ("睡眠", BreathConfig::Sleep),
        ("提醒", BreathConfig::Alert),
        ("禅意", BreathConfig::Zen),
        ("脉冲", BreathConfig::Ping),
        ("活力", BreathConfig::Energetic),
        ("警告", BreathConfig::Warning),
        ("真空", BreathConfig::Vacuum),
        ("紧急", BreathConfig::Panic),
        ("声呐", BreathConfig::Sonar),
    ]
}

// ---- What holds of the names ----

/// A fan mode is risky if it is Turbo or would let the fan stand still, and only then.
pub proof fn law_risky_modes(mode: FanMode)
    ensures
        is_risky(mode) <==> mode is Turbo || (mode matches FanMode::Custom(duty) && duty == 0),
{
}

/// Every fan mode, level and mode of the ring goes by its name, and a custom one shows its value out of
/// 255.
pub proof fn law_names_of_modes(
    fan: FanIndex,
    mode: FanMode,
    level: KeyboardBacklightLevel,
    ring: PowerLedMode,
    profile: PowerProfile,
)
    ensures
        fan is Cpu ==> fan_text(fan) == "CPU"@,
        fan is Gpu ==> fan_text(fan) == "GPU / 辅助"@,
        mode is Auto ==> fan_mode_text(mode) == "自动"@,
        mode is Full ==> fan_mode_text(mode) == "全速"@,
        mode is Turbo ==> fan_mode_text(mode) == "Turbo（高风险）"@,
        mode matches FanMode::Custom(value) ==> fan_mode_text(mode) == "自定义（"@ + decimal(
            value as nat,
        ) + "/255）"@,
        level is Off ==> keyboard_text(level) == "关闭"@,
        level is Low ==> keyboard_text(level) == "低"@,
        level is Medium ==> keyboard_text(level) == "中"@,
        level is High ==> keyboard_text(level) == "高"@,
        level matches KeyboardBacklightLevel::Custom(value) ==> keyboard_text(level) == "自定义（"@
            + decimal(value as nat) + "/255）"@,
        ring is Auto ==> led_text(ring) == "自动"@,
        ring is Animation ==> led_text(ring) == "硬件灯效"@,
        ring matches PowerLedMode::Custom(value) ==> led_text(ring) == "静态亮度（"@ + decimal(
            value as nat,
        ) + "/255）"@,
        profile is Silent ==> power_profile_text(profile) == "安静"@,
        profile is Default ==> power_profile_text(profile) == "默认"@,
        profile is Performance ==> power_profile_text(profile) == "性能"@,
{
}

/// The names of the power profiles differ.
pub proof fn law_profile_names_differ(one: PowerProfile, other: PowerProfile)
    ensures
        power_profile_text(one) == power_profile_text(other) ==> one == other,
{
    reveal_strlit("安静");
    reveal_strlit("默认");
    reveal_strlit("性能");
    assert("安静"@[0] != "默认"@[0] && "安静"@[0] != "性能"@[0] && "默认"@[0] != "性能"@[0]);
    assert(power_profile_text(one)[0] == power_profile_text(other)[0] ==> one == other);
}

/// The name of a charge intent: thresholds are shown from the lower to the upper one, in percent.
pub proof fn law_names_of_intents(intent: ChargeIntent)
    ensures
        intent is Full ==> charge_text(intent) == "完全充电"@,
        intent is Freeze ==> charge_text(intent) == "冻结充电"@,
        intent == ChargeIntent::Preserve(None) ==> charge_text(intent) == "固件电池保护"@,
        intent matches ChargeIntent::Preserve(Some(range)) ==> charge_text(intent) == "保护阈值 "@
            + (decimal(range.min as nat) + "%–"@ + decimal(range.max as nat) + "%"@),
{
}

/// An option that is added stands at the end, under its title and with its intent, and leaves the
/// others where they are; one whose intent is offered already changes nothing.
pub proof fn law_options_are_added_at_the_end(
    options: Seq<(Seq<char>, ChargeIntent)>,
    title: Seq<char>,
    intent: ChargeIntent,
)
    ensures
        ({
            let longer = with_option(options, title, intent);
            &&& (exists|i: int| 0 <= i < options.len() && (#[trigger] options[i]).1 == intent)
                ==> longer == options
            &&& (forall|i: int| 0 <= i < options.len() ==> (#[trigger] options[i]).1 != intent)
                ==> longer.len() == options.len() + 1 && longer.last() == (title, intent)
                && longer.drop_last() == options
        }),
{
    if forall|i: int| 0 <= i < options.len() ==> (#[trigger] options[i]).1 != intent {
        assert(!offers(options, intent));
        assert(options.push((title, intent)).drop_last() =~= options);
    }
}

/// Ten effects are offered, each of them once and under its name.
pub proof fn law_each_effect_is_offered_once(effect: BreathConfig, i: int, j: int)
    ensures
        effects().len() == 10,
        0 <= i < j < 10 ==> effects()[i].1 != effects()[j].1,
        effects()[match effect {
            BreathConfig::Smooth => 0int,
            BreathConfig::Sleep => 1,
            BreathConfig::Alert => 2,
            BreathConfig::Zen => 3,
            BreathConfig::Ping => 4,
            BreathConfig::Energetic => 5,
            BreathConfig::Warning => 6,
            BreathConfig::Vacuum => 7,
            BreathConfig::Panic => 8,
            BreathConfig::Sonar => 9,
        }].1 == effect,
        0 <= i < 10 ==> match effects()[i].1 {
            BreathConfig::Smooth => effects()[i].0 == "柔和"@,
            BreathConfig::Sleep => effects()[i].0 == "睡眠"@,
            BreathConfig::Alert => effects()[i].0 == "提醒"@,
            BreathConfig::Zen => effects()[i].0 == "禅意"@,
            BreathConfig::Ping => effects()[i].0 == "脉冲"@,
            BreathConfig::Energetic => effects()[i].0 == "活力"@,
            BreathConfig::Warning => effects()[i].0 == "警告"@,
            BreathConfig::Vacuum => effects()[i].0 == "真空"@,
            BreathConfig::Panic => effects()[i].0 == "紧急"@,
            BreathConfig::Sonar => effects()[i].0 == "声呐"@,
        },
{
}

} // verus!
