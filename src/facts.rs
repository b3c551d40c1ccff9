//! The light-hearted facts that keep the operator company during a long
//! generation run.
use vstd::prelude::*;

verus! {

/// The facts, in order.
pub open spec fn fact_texts() -> Seq<Seq<char>> {
    seq![
        "The Sun is 330,330 times larger than Earth.\n"@,
        "Volcano-ologists are experts in the study of volcanoes.\n"@,
        "If you have trouble with simple counting, use the following mnemonic device: \n\
    one comes before two comes before 60 comes after 12 comes before \n\
    six trillion comes after 504. This will make your earlier counting difficulties\n\
    seem like no big deal.\n"@,
        "The average adult body contains half a pound of salt.\n"@,
        "The first person to prove that cow's milk is drinkable was very, very thirsty.\n"@,
        "The atomic weight of Germanium is seven two point six four.\n"@,
        "An ostrich's eye is bigger than its brain. Its brain size is 59.26 mm,\n\
    while its eye is 50.8 mm.\n"@,
        "Humans can survive underwater. But not for very long.\n"@,
        "Polymerase I polypeptide A is a human gene. Shortened as POLR1C.\n"@,
        "Iguanas can stay underwater for twenty-eight point seven minutes.\n"@,
        "The moon orbits the Earth every 27.32 days.\n"@,
        "The billionth digit of Pi is 9.\n"@,
        "A gallon of water weighs 8.34 pounds.\n"@,
        "Hot water freezes quicker than cold water.\n"@,
        "Honey does not spoil. Instead, it will crystalize.\n"@,
        "A nanosecond lasts one billionth of a second.\n"@,
        "According to Norse legend, thunder god Thor's chariot was pulled across the\n\
    sky by two goats.\n"@,
        "Tungsten has the highest melting point of any metal, at 3,410 degrees Celsius.\n"@,
        "The value of Pi is the ratio of any circle's circumference to its diameter in\n\
    Euclidean space.\n"@,
        "In 1879, Sandford Fleming first proposed the adoption of worldwide\n\
    standardized time zones at the Royal Canadian Institute.\n"@,
        "89% of magic tricks are not magic. Technically, they are sorcery.\n\
    The other 11% of magic tricks are probably also not magic.\n"@,
        "The plural of surgeon general is surgeons general. The past tense of\n\
    surgeons general is surgeonsed general.\n"@,
        "Edmund Hillary, the first person to climb Mount Everest,\n\
    did so accidentally while chasing a bird.\n"@,
        "Diamonds are made when coal is put under intense pressure. Diamonds put under\n\
    intense pressure become foam pellets, commonly used today as packing material.\n"@,
        "Halley's Comet can be viewed orbiting Earth every seventy-six years.\n\
    For the other seventy-five, it retreats to the heart of the sun,\n\
    where it hibernates undisturbed.\n"@,
        "In Greek myth, Prometheus stole fire from the Gods and gave it to humankind.\n\
    The jewelry he kept for himself.\n"@,
        "Pants were invented by sailors in the sixteenth century to avoid Poseidon's wrath.\n"@,
        "William Shakespeare did not exist. His plays were masterminded in 1589 by\n\
    Francis Bacon, who used an Ouija board to conjure play-writing ghosts.\n"@,
        "The automobile brake was not invented until 1895. Before this, someone had to\n\
    remain in the car at all times, driving in circles until passengers\n\
    returned from their errands.\n"@,
        "Before the Wright Brothers invented the airplane, anyone wanting to fly\n\
    anywhere was required to eat 200 pounds of helium.\n"@,
        "Before the invention of scrambled eggs in 1912, the typical breakfast was either\n\
    whole eggs still in the shell or scrambled rocks.\n"@,
        "To make a photocopier, simply photocopy a mirror.\n"@,
        "Fact: Gigabrain is very handsome.\n"@,
        "Fact not found.\n"@,
        "Error. Error. Error. File not found.\n"@,
        "Error. Error. Error. Fact not found.\n"@,
        "Warning, parameter corruption detec- Rats are regarded as the most handsome rodent.\n"@,
    ]
}

/// The list of facts shown while the parameters are generated.
pub fn facts() -> (r: Vec<String>)
    ensures
        r@.len() == fact_texts().len(),
        forall|i: int| 0 <= i < r@.len() ==> #[trigger] r@[i]@ == fact_texts()[i],
{
    let mut facts: Vec<String> = Vec::new();
    facts.push(String::from_str("The Sun is 330,330 times larger than Earth.\n"));
    facts.push(String::from_str("Volcano-ologists are experts in the study of volcanoes.\n"));
    facts.push(String::from_str("If you have trouble with simple counting, use the following mnemonic device: \n\
    one comes before two comes before 60 comes after 12 comes before \n\
    six trillion comes after 504. This will make your earlier counting difficulties\n\
    seem like no big deal.\n"));
    facts.push(String::from_str("The average adult body contains half a pound of salt.\n"));
    facts.push(String::from_str("The first person to prove that cow's milk is drinkable was very, very thirsty.\n"));
    facts.push(String::from_str("The atomic weight of Germanium is seven two point six four.\n"));
    facts.push(String::from_str("An ostrich's eye is bigger than its brain. Its brain size is 59.26 mm,\n\
    while its eye is 50.8 mm.\n"));
    facts.push(String::from_str("Humans can survive underwater. But not for very long.\n"));
    facts.push(String::from_str("Polymerase I polypeptide A is a human gene. Shortened as POLR1C.\n"));
    facts.push(String::from_str("Iguanas can stay underwater for twenty-eight point seven minutes.\n"));
    facts.push(String::from_str("The moon orbits the Earth every 27.32 days.\n"));
    facts.push(String::from_str("The billionth digit of Pi is 9.\n"));
    facts.push(String::from_str("A gallon of water weighs 8.34 pounds.\n"));
    facts.push(String::from_str("Hot water freezes quicker than cold water.\n"));
    facts.push(String::from_str("Honey does not spoil. Instead, it will crystalize.\n"));
    facts.push(String::from_str("A nanosecond lasts one billionth of a second.\n"));
    facts.push(String::from_str("According to Norse legend, thunder god Thor's chariot was pulled across the\n\
    sky by two goats.\n"));
    facts.push(String::from_str("Tungsten has the highest melting point of any metal, at 3,410 degrees Celsius.\n"));
    facts.push(String::from_str("The value of Pi is the ratio of any circle's circumference to its diameter in\n\
    Euclidean space.\n"));
    facts.push(String::from_str("In 1879, Sandford Fleming first proposed the adoption of worldwide\n\
    standardized time zones at the Royal Canadian Institute.\n"));
    facts.push(String::from_str("89% of magic tricks are not magic. Technically, they are sorcery.\n\
    The other 11% of magic tricks are probably also not magic.\n"));
    facts.push(String::from_str("The plural of surgeon general is surgeons general. The past tense of\n\
    surgeons general is surgeonsed general.\n"));
    facts.push(String::from_str("Edmund Hillary, the first person to climb Mount Everest,\n\
    did so accidentally while chasing a bird.\n"));
    facts.push(String::from_str("Diamonds are made when coal is put under intense pressure. Diamonds put under\n\
    intense pressure become foam pellets, commonly used today as packing material.\n"));
    facts.push(String::from_str("Halley's Comet can be viewed orbiting Earth every seventy-six years.\n\
    For the other seventy-five, it retreats to the heart of the sun,\n\
    where it hibernates undisturbed.\n"));
    facts.push(String::from_str("In Greek myth, Prometheus stole fire from the Gods and gave it to humankind.\n\
    The jewelry he kept for himself.\n"));
    facts.push(String::from_str("Pants were invented by sailors in the sixteenth century to avoid Poseidon's wrath.\n"));
    facts.push(String::from_str("William Shakespeare did not exist. His plays were masterminded in 1589 by\n\
    Francis Bacon, who used an Ouija board to conjure play-writing ghosts.\n"));
    facts.push(String::from_str("The automobile brake was not invented until 1895. Before this, someone had to\n\
    remain in the car at all times, driving in circles until passengers\n\
    returned from their errands.\n"));
    facts.push(String::from_str("Before the Wright Brothers invented the airplane, anyone wanting to fly\n\
    anywhere was required to eat 200 pounds of helium.\n"));
    facts.push(String::from_str("Before the invention of scrambled eggs in 1912, the typical breakfast was either\n\
    whole eggs still in the shell or scrambled rocks.\n"));
    facts.push(String::from_str("To make a photocopier, simply photocopy a mirror.\n"));
    facts.push(String::from_str("Fact: Gigabrain is very handsome.\n"));
    facts.push(String::from_str("Fact not found.\n"));
    facts.push(String::from_str("Error. Error. Error. File not found.\n"));
    facts.push(String::from_str("Error. Error. Error. Fact not found.\n"));
    facts.push(String::from_str("Warning, parameter corruption detec- Rats are regarded as the most handsome rodent.\n"));
    assert(facts@.len() == fact_texts().len());
    facts
}

} // verus!
