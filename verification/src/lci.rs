use vstd::prelude::*;

verus! {

/// What the manager needs to know of a device that the LCI gateway lists.
pub struct ThingSummary {
    /// The gateway lists the device as a generator.
    pub is_generator: bool,
    pub label: String,
}

/// Why the generator or its fuel tank could not be found.
#[derive(PartialEq, Eq, Structural, Clone, Copy, Debug)]
pub enum DeviceLookupError {
    NoGenerator,
    NoFuelTank,
}

/// The label that the gateway gives the generator's fuel tank.
pub open spec fn is_fuel_tank_label(label: Seq<char>) -> bool {
    label == "Generator Fuel Tank"@
}

/// `g` is the first generator in the list.
pub open spec fn is_first_generator(things: Seq<ThingSummary>, g: int) -> bool {
    &&& 0 <= g < things.len()
    &&& things[g].is_generator
    &&& forall|i: int| 0 <= i < g ==> !(#[trigger] things[i]).is_generator
}

/// `f` is the first fuel tank in the list once the device at `g` is taken out.
pub open spec fn is_first_fuel_tank_besides(things: Seq<ThingSummary>, g: int, f: int) -> bool {
    &&& 0 <= f < things.len()
    &&& f != g
    &&& is_fuel_tank_label(things[f].label@)
    &&& forall|i: int| 0 <= i < f && i != g ==> !is_fuel_tank_label((#[trigger] things[i]).label@)
}

/// Finds the generator (the first device listed as one) and then its fuel tank
/// (the first of the other devices labelled "Generator Fuel Tank"); both are
/// positions in `things`.
pub fn get_generator(things: &Vec<ThingSummary>) -> (r: Result<(usize, usize), DeviceLookupError>)
    ensures
        r matches Ok((g, f)) ==> is_first_generator(things@, g as int) && is_first_fuel_tank_besides(
            things@,
            g as int,
            f as int,
        ),
        r matches Ok((g, f)) ==> {
            &&& g < things@.len() && things@[g as int].is_generator
            &&& f < things@.len() && f != g && things@[f as int].label@ == "Generator Fuel Tank"@
        },
        r == Err::<(usize, usize), DeviceLookupError>(DeviceLookupError::NoGenerator) <==> forall|i: int|
            0 <= i < things@.len() ==> !(#[trigger] things@[i]).is_generator,
        r == Err::<(usize, usize), DeviceLookupError>(DeviceLookupError::NoFuelTank) ==> exists|g: int|
            {
                &&& is_first_generator(things@, g)
                &&& forall|i: int|
                    0 <= i < things@.len() && i != g ==> !is_fuel_tank_label(
                        (#[trigger] things@[i]).label@,
                    )
            },
{
    let n = things.len();
    let mut g: usize = 0;
    while g < n
        invariant
            g <= n,
            n == things@.len(),
            forall|i: int| 0 <= i < g ==> !(#[trigger] things@[i]).is_generator,
        ensures
            g <= n,
            forall|i: int| 0 <= i < g ==> !(#[trigger] things@[i]).is_generator,
            g < n ==> things@[g as int].is_generator,
        decreases n - g,
    {
        if things[g].is_generator {
            break;
        }
        g = g + 1;
    }
    if g == n {
        return Err(DeviceLookupError::NoGenerator);
    }
    let fuel_label = String::from_str("Generator Fuel Tank");
    let mut f: usize = 0;
    while f < n
        invariant
            f <= n,
            n == things@.len(),
            g < n,
            fuel_label@ == "Generator Fuel Tank"@,
            forall|i: int| 0 <= i < f && i != g ==> !is_fuel_tank_label((#[trigger] things@[i]).label@),
        ensures
            f <= n,
            forall|i: int| 0 <= i < f && i != g ==> !is_fuel_tank_label((#[trigger] things@[i]).label@),
            f < n ==> f != g && is_fuel_tank_label(things@[f as int].label@),
        decreases n - f,
    {
        if f != g && things[f].label == fuel_label {
            break;
        }
        f = f + 1;
    }
    if f == n {
        assert(is_first_generator(things@, g as int));
        return Err(DeviceLookupError::NoFuelTank);
    }
    Ok((g, f))
}

} // verus!
