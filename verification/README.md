# road_intersection

A four-way road intersection with traffic lights, as a verified library with a
small window around it.

- `src/` is the library, verified with Verus. `geometry` holds the units (hundredths
  of a pixel) and the fixed layout; `car` the cars (spawning, driving, turning,
  passing the light); `light` the traffic lights; `junction` one frame of the
  waiting and of the crossed traffic, with the laws that hold of every frame
  (never two greens at once, no car lost, cars wait at red and behind earlier
  cars); `road` the painted lines; `control` what the keys do; `chance` the random
  draws.
- `app/` opens the window with macroquad, reads the keyboard, limits each key to
  one car every 1.5 s with `throttle_my_fn`, and draws what each frame returns.
- `tests/` runs the library on concrete scenes.
